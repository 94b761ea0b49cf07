use vstd::prelude::*;

verus! {

/// The width of the picture, in pixels.
pub const WIDTH: usize = 256;

/// The height of the picture, in pixels.
pub const HEIGHT: usize = 240;

/// The name of the program, as the window shows it.
pub const NAME: &'static str = "newnes";

/// The number of colours after which the test picture starts over.
pub const TEST_PATTERN_PERIOD: u32 = 673433;

/// The title of the window while the cartridge called `rom_name` runs.
pub fn window_title(rom_name: &str) -> (title: String)
    ensures
        title@ == NAME@ + " | "@ + rom_name@,
{
    String::from_str(NAME).concat(" | ").concat(rom_name)
}

/// The pixel of the test picture at `index`.
pub open spec fn test_pixel(index: int) -> u32 {
    (index % (TEST_PATTERN_PERIOD as int)) as u32
}

/// The test picture: a picture of `WIDTH` by `HEIGHT` pixels, each of which
/// holds its own index, counted round the period of the pattern.
pub fn test_pattern() -> (pixels: Vec<u32>)
    ensures
        pixels@.len() == WIDTH * HEIGHT,
        forall|index: int| 0 <= index < pixels@.len() ==> pixels@[index] == test_pixel(index),
{
    let mut pixels: Vec<u32> = Vec::new();
    let mut index: usize = 0;
    while index < WIDTH * HEIGHT
        invariant
            index <= WIDTH * HEIGHT,
            pixels@.len() == index,
            forall|i: int| 0 <= i < index ==> pixels@[i] == test_pixel(i),
        decreases WIDTH * HEIGHT - index,
    {
        pixels.push(index as u32 % TEST_PATTERN_PERIOD);
        index += 1;
    }
    pixels
}

} // verus!
