use vstd::prelude::*;
use vstd::arithmetic::div_mod::{lemma_fundamental_div_mod, lemma_fundamental_div_mod_converse};
use vstd::string::StringExecFns;

verus! {

// A record's fields are identified by a name or by a position. A positional
// field still needs a spellable tag for its patch and error entries, so a
// position is turned into a short all-capital name.

/// The capital letter standing for a residue modulo the alphabet: `'A'` for 0
/// through `'Z'` for 25.
pub open spec fn letter(i: nat) -> char {
    if i == 0 {
        'A'
    } else if i == 1 {
        'B'
    } else if i == 2 {
        'C'
    } else if i == 3 {
        'D'
    } else if i == 4 {
        'E'
    } else if i == 5 {
        'F'
    } else if i == 6 {
        'G'
    } else if i == 7 {
        'H'
    } else if i == 8 {
        'I'
    } else if i == 9 {
        'J'
    } else if i == 10 {
        'K'
    } else if i == 11 {
        'L'
    } else if i == 12 {
        'M'
    } else if i == 13 {
        'N'
    } else if i == 14 {
        'O'
    } else if i == 15 {
        'P'
    } else if i == 16 {
        'Q'
    } else if i == 17 {
        'R'
    } else if i == 18 {
        'S'
    } else if i == 19 {
        'T'
    } else if i == 20 {
        'U'
    } else if i == 21 {
        'V'
    } else if i == 22 {
        'W'
    } else if i == 23 {
        'X'
    } else if i == 24 {
        'Y'
    } else {
        'Z'
    }
}

/// The one-letter text of a residue below 26.
fn letter_str(i: u32) -> (r: &'static str)
    requires
        i < 26,
    ensures
        r@ == seq![letter(i as nat)],
{
    match i {
        0 => {
            proof {
                reveal_strlit("A");
            }
            "A"
        },
        1 => {
            proof {
                reveal_strlit("B");
            }
            "B"
        },
        2 => {
            proof {
                reveal_strlit("C");
            }
            "C"
        },
        3 => {
            proof {
                reveal_strlit("D");
            }
            "D"
        },
        4 => {
            proof {
                reveal_strlit("E");
            }
            "E"
        },
        5 => {
            proof {
                reveal_strlit("F");
            }
            "F"
        },
        6 => {
            proof {
                reveal_strlit("G");
            }
            "G"
        },
        7 => {
            proof {
                reveal_strlit("H");
            }
            "H"
        },
        8 => {
            proof {
                reveal_strlit("I");
            }
            "I"
        },
        9 => {
            proof {
                reveal_strlit("J");
            }
            "J"
        },
        10 => {
            proof {
                reveal_strlit("K");
            }
            "K"
        },
        11 => {
            proof {
                reveal_strlit("L");
            }
            "L"
        },
        12 => {
            proof {
                reveal_strlit("M");
            }
            "M"
        },
        13 => {
            proof {
                reveal_strlit("N");
            }
            "N"
        },
        14 => {
            proof {
                reveal_strlit("O");
            }
            "O"
        },
        15 => {
            proof {
                reveal_strlit("P");
            }
            "P"
        },
        16 => {
            proof {
                reveal_strlit("Q");
            }
            "Q"
        },
        17 => {
            proof {
                reveal_strlit("R");
            }
            "R"
        },
        18 => {
            proof {
                reveal_strlit("S");
            }
            "S"
        },
        19 => {
            proof {
                reveal_strlit("T");
            }
            "T"
        },
        20 => {
            proof {
                reveal_strlit("U");
            }
            "U"
        },
        21 => {
            proof {
                reveal_strlit("V");
            }
            "V"
        },
        22 => {
            proof {
                reveal_strlit("W");
            }
            "W"
        },
        23 => {
            proof {
                reveal_strlit("X");
            }
            "X"
        },
        24 => {
            proof {
                reveal_strlit("Y");
            }
            "Y"
        },
        _ => {
            proof {
                reveal_strlit("Z");
            }
            "Z"
        },
    }
}

/// The name given to the positional field at index `count`: the letter of the
/// index's residue modulo 26, written once for the index itself and once more
/// for each full alphabet the index holds.
pub fn get_name(count: u32) -> (r: String)
    ensures
        r@ == Seq::new((count / 26 + 1) as nat, |i: int| letter((count % 26) as nat)),
{
    let mut res = String::new();
    let mut c: u32 = count;
    let ghost mut k: int = 0;
    while c >= 26
        invariant
            0 <= k,
            c == count - 26 * k,
            res@ =~= Seq::new(k as nat, |i: int| letter((count % 26) as nat)),
        decreases c,
    {
        let idx: u32 = c % 26;
        proof {
            lemma_fundamental_div_mod(c as int, 26);
            lemma_fundamental_div_mod_converse(
                count as int,
                26,
                k + (c / 26) as int,
                (c % 26) as int,
            );
        }
        res.append(letter_str(idx));
        c = c - 26;
        proof {
            k = k + 1;
            assert(res@ =~= Seq::new(k as nat, |i: int| letter((count % 26) as nat)));
        }
    }
    proof {
        lemma_fundamental_div_mod_converse(count as int, 26, k, c as int);
    }
    res.append(letter_str(c));
    proof {
        assert(res@ =~= Seq::new((count / 26 + 1) as nat, |i: int| letter((count % 26) as nat)));
    }
    res
}

} // verus!
