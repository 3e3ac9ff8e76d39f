//! Outbound frame encoder: the binary frame written back to the game
//! server for one channel chat post.

use vstd::prelude::*;

verus! {

use vstd::string::StrSliceExecFns;
use vstd::utf8::encode_utf8;
use crate::color::Rgb;

/// Layout of an outbound frame: three raw color bytes, then the name
/// and the content, each followed by one zero byte.
pub open spec fn frame_model(color: Rgb, name: Seq<char>, content: Seq<char>) -> Seq<u8> {
    seq![color.r, color.g, color.b] + encode_utf8(name) + seq![0u8] + encode_utf8(content) + seq![
        0u8,
    ]
}

/// Encode one chat post as an outbound frame.
pub fn encode_frame(color: Rgb, name: &String, content: &String) -> (frame: Vec<u8>)
    ensures
        frame@ == frame_model(color, name@, content@),
{
    let mut frame: Vec<u8> = Vec::new();
    frame.push(color.r);
    frame.push(color.g);
    frame.push(color.b);
    let mut name_bytes = name.as_str().as_bytes_vec();
    frame.append(&mut name_bytes);
    frame.push(0);
    let mut content_bytes = content.as_str().as_bytes_vec();
    frame.append(&mut content_bytes);
    frame.push(0);
    proof {
        assert(frame@ =~= frame_model(color, name@, content@));
    }
    frame
}

} // verus!
