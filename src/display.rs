use vstd::prelude::*;

verus! {

/// The screen buffer handed to the renderer. The instruction core never reads
/// or writes it; it only travels with the CPU.
#[derive(Clone, Debug)]
pub struct Display {
    /// One byte per pixel, 144 rows of 160 pixels.
    display: [[u8; 160]; 144],
    /// One byte per 8x8 tile of the screen.
    tiles: [[u8; 20]; 18],
}

impl Display {
    /// A blank screen.
    pub fn new() -> (r: Display)
        ensures
            r.is_blank(),
    {
        let d = Display { display: [[0u8; 160]; 144], tiles: [[0u8; 20]; 18] };
        d
    }

    /// Every pixel and every tile is zero.
    pub closed spec fn is_blank(&self) -> bool {
        &&& forall|i: int, j: int| 0 <= i < 144 && 0 <= j < 160 ==> #[trigger] self.display@[i]@[j] == 0
        &&& forall|i: int, j: int| 0 <= i < 18 && 0 <= j < 20 ==> #[trigger] self.tiles@[i]@[j] == 0
    }
}

} // verus!
