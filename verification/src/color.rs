//! Colors for outbound frames and channel posts, and the policy that
//! picks a sender's color from their colored roles.

use vstd::prelude::*;

verus! {

/// An RGB color, three raw bytes.
#[derive(Debug, Clone, Copy, PartialEq, Eq, Structural)]
pub struct Rgb {
    pub r: u8,
    pub g: u8,
    pub b: u8,
}

/// White, the fallback color for senders without a colored role.
pub open spec fn white() -> Rgb {
    Rgb { r: 255, g: 255, b: 255 }
}

/// The three color bytes packed into one number, highest byte first.
pub open spec fn rgb_of(c: u32) -> Rgb {
    Rgb { r: (c >> 16) as u8, g: (c >> 8) as u8, b: c as u8 }
}

/// What the color policy reads of a sender's role: its position in the
/// role hierarchy and its packed color value.
#[derive(Debug, Clone, Copy, PartialEq, Eq, Structural)]
pub struct RoleInfo {
    pub position: u16,
    pub colour: u32,
}

/// The role a sender's color is taken from: the first role, in the
/// given order, whose position no later role exceeds.
pub open spec fn best_role(roles: Seq<RoleInfo>) -> RoleInfo
    recommends
        roles.len() > 0,
    decreases roles.len(),
{
    if roles.len() <= 1 {
        roles[0]
    } else {
        let rest = best_role(roles.drop_first());
        if roles[0].position >= rest.position {
            roles[0]
        } else {
            rest
        }
    }
}

/// The color a sender's posts carry: the highest-positioned role's
/// color, or white when there is no role or that role is uncolored.
pub open spec fn color_model(roles: Seq<RoleInfo>) -> Rgb {
    if roles.len() == 0 {
        white()
    } else if best_role(roles).colour == 0 {
        white()
    } else {
        rgb_of(best_role(roles).colour)
    }
}

proof fn lemma_best_role_push(s: Seq<RoleInfo>, x: RoleInfo)
    requires
        s.len() >= 1,
    ensures
        best_role(s.push(x)) == if x.position > best_role(s).position {
            x
        } else {
            best_role(s)
        },
    decreases s.len(),
{
    if s.len() == 1 {
        assert(s.push(x).drop_first() =~= seq![x]);
        assert(best_role(seq![x]) == x);
        assert(best_role(s) == s[0]);
        assert(s.push(x)[0] == s[0]);
    } else {
        assert(s.push(x).drop_first() =~= s.drop_first().push(x));
        lemma_best_role_push(s.drop_first(), x);
        assert(s.push(x)[0] == s[0]);
        assert(best_role(s.push(x)) == if s[0].position >= best_role(s.drop_first().push(
            x,
        )).position {
            s[0]
        } else {
            best_role(s.drop_first().push(x))
        });
    }
}

/// Pick the sender's color from their roles.
pub fn pick_color(roles: &Vec<RoleInfo>) -> (c: Rgb)
    ensures
        c == color_model(roles@),
{
    if roles.len() == 0 {
        return Rgb { r: 255, g: 255, b: 255 };
    }
    let mut best: RoleInfo = roles[0];
    let mut i: usize = 1;
    while i < roles.len()
        invariant
            1 <= i <= roles@.len(),
            roles@.len() >= 1,
            best == best_role(roles@.take(i as int)),
        decreases roles@.len() - i,
    {
        proof {
            assert(roles@.take(i as int + 1) =~= roles@.take(i as int).push(roles@[i as int]));
            lemma_best_role_push(roles@.take(i as int), roles@[i as int]);
        }
        if roles[i].position > best.position {
            best = roles[i];
        }
        i = i + 1;
    }
    proof {
        assert(roles@.take(roles@.len() as int) =~= roles@);
    }
    if best.colour == 0 {
        Rgb { r: 255, g: 255, b: 255 }
    } else {
        Rgb { r: (best.colour >> 16) as u8, g: (best.colour >> 8) as u8, b: best.colour as u8 }
    }
}

} // verus!
