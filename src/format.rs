use vstd::prelude::*;
use vstd::string::*;

verus! {

/// The raster formats that an image can be written in.
#[derive(Clone, Copy, Debug, PartialEq, Eq, Structural)]
pub enum Format {
    Jpeg,
    Png,
    WebP,
    Bmp,
    Gif,
    Avif,
}

impl Format {
    /// Whether the format stores an alpha channel.
    pub open spec fn spec_supports_alpha(self) -> bool {
        match self {
            Format::Jpeg => false,
            Format::Png => true,
            Format::WebP => true,
            Format::Bmp => true,
            Format::Gif => true,
            Format::Avif => true,
        }
    }

    /// The capability table: which formats keep transparency.
    pub fn supports_alpha(&self) -> (r: bool)
        ensures
            r == self.spec_supports_alpha(),
    {
        match self {
            Format::Jpeg => false,
            Format::Png => true,
            Format::WebP => true,
            Format::Bmp => true,
            Format::Gif => true,
            Format::Avif => true,
        }
    }
}

/// `c` is the lower-case ASCII letter or digit `lower`, in either case.
pub open spec fn char_matches(c: char, lower: char) -> bool {
    c == lower || (97 <= lower as u32 <= 122 && (c as u32) + 32 == lower as u32)
}

/// `name` spells `word` with ASCII letters in any case.
pub open spec fn name_is(name: Seq<char>, word: Seq<char>) -> bool {
    name.len() == word.len() && forall|i: int| 0 <= i < name.len() ==> char_matches(#[trigger] name[i], word[i])
}

/// The format that a user-supplied name stands for, if any.
pub open spec fn format_of_name(name: Seq<char>) -> Option<Format> {
    if name_is(name, seq!['j', 'p', 'e', 'g']) || name_is(name, seq!['j', 'p', 'g']) {
        Some(Format::Jpeg)
    } else if name_is(name, seq!['p', 'n', 'g']) {
        Some(Format::Png)
    } else if name_is(name, seq!['w', 'e', 'b', 'p']) {
        Some(Format::WebP)
    } else if name_is(name, seq!['b', 'm', 'p']) {
        Some(Format::Bmp)
    } else if name_is(name, seq!['g', 'i', 'f']) {
        Some(Format::Gif)
    } else if name_is(name, seq!['a', 'v', 'i', 'f']) {
        Some(Format::Avif)
    } else {
        None
    }
}

fn char_is(c: char, lower: char) -> (r: bool)
    ensures
        r == char_matches(c, lower),
{
    c == lower || (97 <= lower as u32 && lower as u32 <= 122 && (c as u32) + 32 == lower as u32)
}

fn spells(name: &str, word: &str) -> (r: bool)
    ensures
        r == name_is(name@, word@),
{
    let n = name.unicode_len();
    if n != word.unicode_len() {
        return false;
    }
    let mut i: usize = 0;
    while i < n
        invariant
            n == name@.len(),
            n == word@.len(),
            i <= n,
            forall|k: int| 0 <= k < i ==> char_matches(#[trigger] name@[k], word@[k]),
        decreases n - i,
    {
        if !char_is(name.get_char(i), word.get_char(i)) {
            return false;
        }
        i = i + 1;
    }
    true
}

/// The format named by `name`, compared without regard to ASCII case.
pub fn get_format(name: &str) -> (r: Option<Format>)
    ensures
        r == format_of_name(name@),
{
    proof {
        reveal_strlit("jpeg");
        reveal_strlit("jpg");
        reveal_strlit("png");
        reveal_strlit("webp");
        reveal_strlit("bmp");
        reveal_strlit("gif");
        reveal_strlit("avif");
        assert("jpeg"@ =~= seq!['j', 'p', 'e', 'g']);
        assert("jpg"@ =~= seq!['j', 'p', 'g']);
        assert("png"@ =~= seq!['p', 'n', 'g']);
        assert("webp"@ =~= seq!['w', 'e', 'b', 'p']);
        assert("bmp"@ =~= seq!['b', 'm', 'p']);
        assert("gif"@ =~= seq!['g', 'i', 'f']);
        assert("avif"@ =~= seq!['a', 'v', 'i', 'f']);
    }
    if spells(name, "jpeg") || spells(name, "jpg") {
        Some(Format::Jpeg)
    } else if spells(name, "png") {
        Some(Format::Png)
    } else if spells(name, "webp") {
        Some(Format::WebP)
    } else if spells(name, "bmp") {
        Some(Format::Bmp)
    } else if spells(name, "gif") {
        Some(Format::Gif)
    } else if spells(name, "avif") {
        Some(Format::Avif)
    } else {
        None
    }
}

} // verus!
