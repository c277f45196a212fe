use vstd::prelude::*;

verus! {

/// Why a registration cannot start.
#[derive(Debug, Clone, Copy, PartialEq, Eq, Structural)]
pub enum IcpError {
    /// The reference scan holds no point: no nearest neighbour can be found.
    EmptyReference,
    /// The movable scan holds no point: its center of mass is undefined.
    EmptyMovable,
}

/// Checks that both scans hold at least one point.
pub fn check_scan_sizes(reference_len: usize, movable_len: usize) -> (r: Result<(), IcpError>)
    ensures
        reference_len == 0 ==> r == Err::<(), IcpError>(IcpError::EmptyReference),
        reference_len > 0 && movable_len == 0 ==> r == Err::<(), IcpError>(IcpError::EmptyMovable),
        r is Ok <==> reference_len > 0 && movable_len > 0,
{
    if reference_len == 0 {
        Err(IcpError::EmptyReference)
    } else if movable_len == 0 {
        Err(IcpError::EmptyMovable)
    } else {
        Ok(())
    }
}

} // verus!
