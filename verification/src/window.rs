//! What the library relies on of `tokio_core::io::Window`, the owned slice
//! that a reply is handed out in.
use tokio_core::io::Window;
use vstd::prelude::*;

verus! {

/// `tokio_core::io::Window`: a buffer together with the range of it that is in
/// view.
#[verifier::external_type_specification]
#[verifier::external_body]
#[verifier::reject_recursive_types(T)]
pub struct ExWindow<T>(tokio_core::io::Window<T>);

/// The whole buffer inside a window (`Window::get_ref`).
pub uninterp spec fn window_buffer(w: Window<[u8; 32]>) -> Seq<u8>;

/// Where the range in view starts (`Window::start`).
pub uninterp spec fn window_start(w: Window<[u8; 32]>) -> int;

/// Where the range in view ends (`Window::end`).
pub uninterp spec fn window_end(w: Window<[u8; 32]>) -> int;

/// The bytes in view: what `as_ref` of a window gives, and so what is written
/// when a window is.
pub open spec fn window_bytes(w: Window<[u8; 32]>) -> Seq<u8> {
    window_buffer(w).subrange(window_start(w), window_end(w))
}

/// `Window::new`: the window holds `buffer` and has all of it in view.
#[verifier::external_body]
pub(crate) fn window_new(buffer: [u8; 32]) -> (w: Window<[u8; 32]>)
    ensures
        window_buffer(w) == buffer@,
        window_start(w) == 0,
        window_end(w) == 32,
{
    Window::new(buffer)
}

/// `Window::set_end`: moves the end of the range in view and nothing else. The
/// outside function panics where `end` lies behind the buffer or before the
/// range's start, so those are left out.
#[verifier::external_body]
pub(crate) fn window_set_end(w: &mut Window<[u8; 32]>, end: usize)
    requires
        window_start(*old(w)) <= end <= window_buffer(*old(w)).len(),
    ensures
        window_buffer(*final(w)) == window_buffer(*old(w)),
        window_start(*final(w)) == window_start(*old(w)),
        window_end(*final(w)) == end,
{
    w.set_end(end);
}

} // verus!
