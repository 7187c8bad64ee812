//! The text of a frame: the border title, the quit caption, and the
//! body line showing elapsed against target seconds. The terminal
//! library only places these strings; their content is decided here.

use vstd::prelude::*;
use crate::digits::{spec_dec, dec_u64};

verus! {

/// The body line: `"Elapsed: {elapsed} / {target}"`, both numbers in
/// canonical decimal.
pub open spec fn spec_body_line(elapsed_seconds: u64, target_seconds: u64) -> Seq<char> {
    "Elapsed: "@ + spec_dec(elapsed_seconds as nat) + " / "@ + spec_dec(target_seconds as nat)
}

/// Build the body line of a frame.
pub fn body_line(elapsed_seconds: u64, target_seconds: u64) -> (r: String)
    ensures
        r@ == spec_body_line(elapsed_seconds, target_seconds),
{
    let mut s = String::from_str("Elapsed: ");
    let e = dec_u64(elapsed_seconds);
    s.append(e.as_str());
    s.append(" / ");
    let t = dec_u64(target_seconds);
    s.append(t.as_str());
    proof {
        assert(s@ =~= spec_body_line(elapsed_seconds, target_seconds));
    }
    s
}

/// The centered border title.
pub fn title_text() -> (r: &'static str)
    ensures
        r@ == " Focus "@,
{
    " Focus "
}

/// The caption naming the quit key, shown on the bottom border.
pub fn quit_label() -> (r: &'static str)
    ensures
        r@ == " Quit "@,
{
    " Quit "
}

/// The highlighted key inside the quit caption.
pub fn quit_key_text() -> (r: &'static str)
    ensures
        r@ == "<Q> "@,
{
    "<Q> "
}

/// Rendering is idempotent: the frame text is a function of the state
/// alone, so two frames built from the same target and elapsed time
/// are identical, character for character.
pub proof fn lemma_render_idempotent(
    a: Seq<char>,
    b: Seq<char>,
    elapsed_seconds: u64,
    target_seconds: u64,
)
    requires
        a == spec_body_line(elapsed_seconds, target_seconds),
        b == spec_body_line(elapsed_seconds, target_seconds),
    ensures
        a == b,
{
}

} // verus!
