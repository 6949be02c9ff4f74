//! Fonts: the named presets every browser offers, and the family-name
//! builder used when a custom font is loaded.
//!
//! Loading a custom font is host work (a fetch and a registration with the
//! host's font set); the library's part is the fresh family name under
//! which the host registers it, built from host-provided random bytes by
//! [`font_family_name`].

use vstd::prelude::*;
use vstd::string::StringExecFns;

verus! {

/// This struct represent a font, by the family name the host knows it
/// under. It is useful when using the text type.
#[derive(Clone, Debug)]
pub struct Font {
    /// The family name the host drawing surface resolves.
    pub name: String,
}

/// The lower-case letter a byte picks: the letter at position `b % 26` of
/// the alphabet.
pub open spec fn family_letter(b: u8) -> char {
    let m = b as int % 26;
    if m == 0 {
        'a'
    } else if m == 1 {
        'b'
    } else if m == 2 {
        'c'
    } else if m == 3 {
        'd'
    } else if m == 4 {
        'e'
    } else if m == 5 {
        'f'
    } else if m == 6 {
        'g'
    } else if m == 7 {
        'h'
    } else if m == 8 {
        'i'
    } else if m == 9 {
        'j'
    } else if m == 10 {
        'k'
    } else if m == 11 {
        'l'
    } else if m == 12 {
        'm'
    } else if m == 13 {
        'n'
    } else if m == 14 {
        'o'
    } else if m == 15 {
        'p'
    } else if m == 16 {
        'q'
    } else if m == 17 {
        'r'
    } else if m == 18 {
        's'
    } else if m == 19 {
        't'
    } else if m == 20 {
        'u'
    } else if m == 21 {
        'v'
    } else if m == 22 {
        'w'
    } else if m == 23 {
        'x'
    } else if m == 24 {
        'y'
    } else {
        'z'
    }
}

/// The one-letter string a byte picks.
fn family_letter_str(b: u8) -> (r: &'static str)
    ensures
        r@ == seq![family_letter(b)],
{
    let m: u8 = b % 26;
    match m {
        0 => {
            proof {
                reveal_strlit("a");
                assert("a"@ =~= seq![family_letter(b)]);
            }
            "a"
        },
        1 => {
            proof {
                reveal_strlit("b");
                assert("b"@ =~= seq![family_letter(b)]);
            }
            "b"
        },
        2 => {
            proof {
                reveal_strlit("c");
                assert("c"@ =~= seq![family_letter(b)]);
            }
            "c"
        },
        3 => {
            proof {
                reveal_strlit("d");
                assert("d"@ =~= seq![family_letter(b)]);
            }
            "d"
        },
        4 => {
            proof {
                reveal_strlit("e");
                assert("e"@ =~= seq![family_letter(b)]);
            }
            "e"
        },
        5 => {
            proof {
                reveal_strlit("f");
                assert("f"@ =~= seq![family_letter(b)]);
            }
            "f"
        },
        6 => {
            proof {
                reveal_strlit("g");
                assert("g"@ =~= seq![family_letter(b)]);
            }
            "g"
        },
        7 => {
            proof {
                reveal_strlit("h");
                assert("h"@ =~= seq![family_letter(b)]);
            }
            "h"
        },
        8 => {
            proof {
                reveal_strlit("i");
                assert("i"@ =~= seq![family_letter(b)]);
            }
            "i"
        },
        9 => {
            proof {
                reveal_strlit("j");
                assert("j"@ =~= seq![family_letter(b)]);
            }
            "j"
        },
        10 => {
            proof {
                reveal_strlit("k");
                assert("k"@ =~= seq![family_letter(b)]);
            }
            "k"
        },
        11 => {
            proof {
                reveal_strlit("l");
                assert("l"@ =~= seq![family_letter(b)]);
            }
            "l"
        },
        12 => {
            proof {
                reveal_strlit("m");
                assert("m"@ =~= seq![family_letter(b)]);
            }
            "m"
        },
        13 => {
            proof {
                reveal_strlit("n");
                assert("n"@ =~= seq![family_letter(b)]);
            }
            "n"
        },
        14 => {
            proof {
                reveal_strlit("o");
                assert("o"@ =~= seq![family_letter(b)]);
            }
            "o"
        },
        15 => {
            proof {
                reveal_strlit("p");
                assert("p"@ =~= seq![family_letter(b)]);
            }
            "p"
        },
        16 => {
            proof {
                reveal_strlit("q");
                assert("q"@ =~= seq![family_letter(b)]);
            }
            "q"
        },
        17 => {
            proof {
                reveal_strlit("r");
                assert("r"@ =~= seq![family_letter(b)]);
            }
            "r"
        },
        18 => {
            proof {
                reveal_strlit("s");
                assert("s"@ =~= seq![family_letter(b)]);
            }
            "s"
        },
        19 => {
            proof {
                reveal_strlit("t");
                assert("t"@ =~= seq![family_letter(b)]);
            }
            "t"
        },
        20 => {
            proof {
                reveal_strlit("u");
                assert("u"@ =~= seq![family_letter(b)]);
            }
            "u"
        },
        21 => {
            proof {
                reveal_strlit("v");
                assert("v"@ =~= seq![family_letter(b)]);
            }
            "v"
        },
        22 => {
            proof {
                reveal_strlit("w");
                assert("w"@ =~= seq![family_letter(b)]);
            }
            "w"
        },
        23 => {
            proof {
                reveal_strlit("x");
                assert("x"@ =~= seq![family_letter(b)]);
            }
            "x"
        },
        24 => {
            proof {
                reveal_strlit("y");
                assert("y"@ =~= seq![family_letter(b)]);
            }
            "y"
        },
        _ => {
            proof {
                reveal_strlit("z");
                assert("z"@ =~= seq![family_letter(b)]);
            }
            "z"
        },
    }
}

/// The family name under which a freshly loaded font is registered: one
/// lower-case letter per random byte, so that two loads never collide in
/// the host's font set (up to the randomness of the bytes).
pub fn font_family_name(randoms: &Vec<u8>) -> (r: String)
    ensures
        r@.len() == randoms@.len(),
        forall|i: int| 0 <= i < randoms@.len() ==> r@[i] == family_letter(randoms@[i]),
{
    let mut name = String::new();
    let mut idx: usize = 0;
    while idx < randoms.len()
        invariant
            idx <= randoms@.len(),
            name@.len() == idx,
            forall|i: int| 0 <= i < idx ==> name@[i] == family_letter(randoms@[i]),
        decreases randoms@.len() - idx,
    {
        let letter = family_letter_str(randoms[idx]);
        name.append(letter);
        idx += 1;
    }
    name
}

impl Font {
    /// Return the Sherif font.
    pub fn sherif() -> (f: Font)
        ensures
            f.name@ == "sherif"@,
    {
        Font { name: String::from_str("sherif") }
    }

    /// Return the Arial font.
    pub fn arial() -> (f: Font)
        ensures
            f.name@ == "Arial"@,
    {
        Font { name: String::from_str("Arial") }
    }

    /// Return the Times New Roman font.
    pub fn times_new_roman() -> (f: Font)
        ensures
            f.name@ == "Times New Roman"@,
    {
        Font { name: String::from_str("Times New Roman") }
    }

    /// Return the Times font.
    pub fn times() -> (f: Font)
        ensures
            f.name@ == "Times"@,
    {
        Font { name: String::from_str("Times") }
    }

    /// Return the Courier New font.
    pub fn courier_new() -> (f: Font)
        ensures
            f.name@ == "Courier New"@,
    {
        Font { name: String::from_str("Courier New") }
    }

    /// Return the Courier font.
    pub fn courier() -> (f: Font)
        ensures
            f.name@ == "Courier"@,
    {
        Font { name: String::from_str("Courier") }
    }

    /// Return the Verdana font.
    pub fn verdana() -> (f: Font)
        ensures
            f.name@ == "Verdana"@,
    {
        Font { name: String::from_str("Verdana") }
    }

    /// Return the Georgia font.
    pub fn georgia() -> (f: Font)
        ensures
            f.name@ == "Georgia"@,
    {
        Font { name: String::from_str("Georgia") }
    }

    /// Return the Palatino font.
    pub fn palatino() -> (f: Font)
        ensures
            f.name@ == "Palatino"@,
    {
        Font { name: String::from_str("Palatino") }
    }

    /// Return the Garamond font.
    pub fn garamond() -> (f: Font)
        ensures
            f.name@ == "Garamond"@,
    {
        Font { name: String::from_str("Garamond") }
    }

    /// Return the Bookman font.
    pub fn bookman() -> (f: Font)
        ensures
            f.name@ == "Bookman"@,
    {
        Font { name: String::from_str("Bookman") }
    }

    /// Return the Comic Sans Ms font.
    pub fn comic_sans_ms() -> (f: Font)
        ensures
            f.name@ == "Comic Sans MS"@,
    {
        Font { name: String::from_str("Comic Sans MS") }
    }

    /// Return the Candara font.
    pub fn candara() -> (f: Font)
        ensures
            f.name@ == "Candara"@,
    {
        Font { name: String::from_str("Candara") }
    }

    /// Return the Helvetica font.
    pub fn helvetica() -> (f: Font)
        ensures
            f.name@ == "Helvetica"@,
    {
        Font { name: String::from_str("Helvetica") }
    }

    /// Return the Arial Black font.
    pub fn arial_black() -> (f: Font)
        ensures
            f.name@ == "Arial Black"@,
    {
        Font { name: String::from_str("Arial Black") }
    }

    /// Return the Inpact font.
    pub fn impact() -> (f: Font)
        ensures
            f.name@ == "Impact"@,
    {
        Font { name: String::from_str("Impact") }
    }
}

} // verus!
