//! Program images: a big-endian word that names the load address, followed by
//! the words to place there.

use vstd::prelude::*;
use crate::bits::{join_bytes, word_of_bytes};
use crate::memory::{memory_wf, MEMORY_SIZE};

verus! {

/// The address at which an image asks to be loaded: its first word.
pub open spec fn image_origin(image: Seq<u8>) -> u16 {
    word_of_bytes(image[0], image[1])
}

/// Number of words that follow the origin.
pub open spec fn image_words(image: Seq<u8>) -> int {
    image.len() / 2 - 1
}

/// The `k`-th word after the origin, most significant byte first.
pub open spec fn image_word(image: Seq<u8>, k: int) -> u16 {
    word_of_bytes(image[2 * k + 2], image[2 * k + 3])
}

/// An image can be loaded when it holds an origin, consists of whole words,
/// and does not run past the last address.
pub open spec fn image_fits(image: Seq<u8>) -> bool {
    &&& image.len() >= 2
    &&& image.len() % 2 == 0
    &&& image_origin(image) + image_words(image) <= MEMORY_SIZE
}

/// Memory with the words of `image` laid over it from the origin upwards.
pub open spec fn memory_with_image(mem: Seq<u16>, image: Seq<u8>) -> Seq<u16> {
    Seq::new(
        mem.len(),
        |a: int|
            if image_origin(image) <= a < image_origin(image) + image_words(image) {
                image_word(image, a - image_origin(image))
            } else {
                mem[a]
            },
    )
}

/// Copies a program image into memory. Returns `true` when the image was
/// loaded; an image that cannot be loaded leaves memory as it was.
pub fn read_image(image: &[u8], memory: &mut Vec<u16>) -> (loaded: bool)
    requires
        memory_wf(old(memory)@),
    ensures
        loaded == image_fits(image@),
        loaded ==> final(memory)@ == memory_with_image(old(memory)@, image@),
        !loaded ==> final(memory)@ == old(memory)@,
        memory_wf(final(memory)@),
{
    let n: usize = image.len();
    if n < 2 || n % 2 != 0 {
        return false;
    }
    let origin: usize = join_bytes(image[0], image[1]) as usize;
    let words: usize = n / 2 - 1;
    if words > MEMORY_SIZE - origin {
        return false;
    }
    let mut k: usize = 0;
    while k < words
        invariant
            k <= words,
            n == image@.len(),
            words == image_words(image@),
            origin == image_origin(image@),
            origin + words <= MEMORY_SIZE,
            memory_wf(memory@),
            forall|a: int|
                0 <= a < MEMORY_SIZE ==> memory@[a] == (if origin <= a < origin + k {
                    image_word(image@, a - origin)
                } else {
                    old(memory)@[a]
                }),
        decreases words - k,
    {
        let word: u16 = join_bytes(image[2 * k + 2], image[2 * k + 3]);
        memory[origin + k] = word;
        k = k + 1;
    }
    true
}

} // verus!
