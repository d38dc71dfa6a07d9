use vstd::prelude::*;

verus! {

/// Errors that the window operations report.
#[derive(Clone, Copy, Debug, PartialEq, Eq, Structural)]
pub enum Error {
    /// The native window or its surface could not be allocated.
    WindowCreate,
    /// A menu with a colliding identifier was attached.
    MenuExists,
    /// The buffer does not fit the declared size, or the surface is gone.
    UpdateFailed,
}

/// A buffer of `len` pixels is acceptable for an image of `width` by `height`
/// with rows `stride` pixels apart.
pub open spec fn buffer_fits(len: int, width: int, height: int, stride: int) -> bool {
    width <= stride && stride * height <= len
}

/// Checks that a buffer of `len` pixels holds `height` rows of `stride`
/// pixels, of which the first `width` are shown.
pub fn check_buffer_size(len: usize, width: usize, height: usize, stride: usize) -> (r: Result<(), Error>)
    ensures
        r is Ok <==> buffer_fits(len as int, width as int, height as int, stride as int),
        r is Err ==> r == Err::<(), Error>(Error::UpdateFailed),
{
    if width > stride {
        return Err(Error::UpdateFailed);
    }
    if height == 0 {
        return Ok(());
    }
    if stride > len / height {
        proof {
            assert(stride * height > len) by (nonlinear_arith)
                requires stride > len / height, height > 0;
        }
        return Err(Error::UpdateFailed);
    }
    proof {
        assert(stride * height <= len) by (nonlinear_arith)
            requires stride <= len / height, height > 0;
    }
    Ok(())
}

} // verus!
