//! Locales parsed from BCP 47 language tags.

use vstd::prelude::*;
use vstd::string::StringSliceAdditionalSpecFns;

verus! {

/// The CJK flavor a locale selects.
#[derive(Copy, Clone, PartialEq, Eq, Structural, Debug)]
pub enum Cjk {
    Unspecified,
    Simplified,
    Traditional,
    Japanese,
    Korean,
}

/// Language with an optional script and region that identifies a locale.
/// Components are stored as ASCII bytes: the language lowercase, the region
/// uppercase, the script in title case; an all-zero script or a zero length
/// means the component is absent.
#[derive(Copy, Clone, PartialEq, Eq, Debug)]
pub struct Locale {
    pub language: [u8; 3],
    pub language_len: u8,
    pub script: [u8; 4],
    pub region: [u8; 3],
    pub region_len: u8,
    pub cjk: Cjk,
}

/// The position of the next `-` separator at or after `from`, or the end.
pub open spec fn dash_end(s: Seq<u8>, from: int) -> int
    decreases s.len() - from,
{
    if from < 0 || from >= s.len() {
        s.len() as int
    } else if s[from] == 45 {
        from
    } else {
        dash_end(s, from + 1)
    }
}

/// An ASCII lowercase letter.
pub open spec fn is_lower(b: u8) -> bool {
    97 <= b <= 122
}

/// An ASCII uppercase letter.
pub open spec fn is_upper(b: u8) -> bool {
    65 <= b <= 90
}

/// An ASCII digit.
pub open spec fn is_digit(b: u8) -> bool {
    48 <= b <= 57
}

/// The ASCII uppercase form of a byte.
pub open spec fn upper(b: u8) -> u8 {
    if is_lower(b) {
        (b - 32) as u8
    } else {
        b
    }
}

/// The empty locale, before any component is parsed.
pub open spec fn empty_locale() -> Locale {
    Locale {
        language: [0, 0, 0],
        language_len: 0,
        script: [0, 0, 0, 0],
        region: [0, 0, 0],
        region_len: 0,
        cjk: Cjk::Unspecified,
    }
}

/// The locale after parsing the primary language subtag, with a flag for
/// the Chinese language codes, or `None` when the subtag has an impossible
/// length.
pub open spec fn parse_language(s: Seq<u8>) -> Option<(Locale, bool)> {
    if s.len() == 2 {
        let a = s[0];
        let b = s[1];
        if is_lower(a) && is_lower(b) {
            let cjk = if a == 106 && b == 97 {
                Cjk::Japanese
            } else if a == 107 && b == 111 {
                Cjk::Korean
            } else {
                Cjk::Unspecified
            };
            Option::Some(
                (
                    Locale {
                        language: [a, b, 0],
                        language_len: 2,
                        cjk,
                        ..empty_locale()
                    },
                    a == 122 && b == 104,
                ),
            )
        } else {
            Option::Some((empty_locale(), false))
        }
    } else if s.len() == 3 {
        let a = s[0];
        let b = s[1];
        let c = s[2];
        if is_lower(a) && is_lower(b) && is_lower(c) {
            Option::Some(
                (
                    Locale { language: [a, b, c], language_len: 3, ..empty_locale() },
                    a == 122 && b == 104 && c == 111,
                ),
            )
        } else {
            Option::Some((empty_locale(), false))
        }
    } else {
        Option::None
    }
}

/// The locale after parsing the second subtag: a two-letter or
/// three-digit region, or a four-letter script whose bytes alternate
/// upper and lower case; anything else leaves the locale as it is.
pub open spec fn parse_second(l: Locale, s: Seq<u8>) -> Locale {
    if s.len() == 2 {
        let a = upper(s[0]);
        let b = upper(s[1]);
        if is_upper(a) && is_upper(b) {
            Locale { region: [a, b, 0], region_len: 2, ..l }
        } else {
            l
        }
    } else if s.len() == 3 {
        if is_digit(s[0]) && is_digit(s[1]) && is_digit(s[2]) {
            Locale { region: [s[0], s[1], s[2]], region_len: 3, ..l }
        } else {
            l
        }
    } else if s.len() == 4 {
        if is_upper(s[0]) && is_lower(s[1]) && is_upper(s[2]) && is_lower(s[3]) {
            Locale { script: [s[0], s[1], s[2], s[3]], ..l }
        } else {
            l
        }
    } else {
        l
    }
}

/// The locale after parsing a third subtag as a two-letter region, taken
/// only when no region was found before.
pub open spec fn parse_third(l: Locale, s: Seq<u8>) -> Locale {
    if s.len() == 2 {
        let a = upper(s[0]);
        let b = upper(s[1]);
        if is_upper(a) && is_upper(b) {
            Locale { region: [a, b, 0], region_len: 2, ..l }
        } else {
            l
        }
    } else {
        l
    }
}

/// Resolves the CJK flavor of the Chinese language codes from the script:
/// `Hans` selects the simplified flavor, anything else the traditional.
pub open spec fn resolve_zh(l: Locale) -> Locale {
    if l.script == [72u8, 97u8, 110u8, 115u8] {
        Locale { cjk: Cjk::Simplified, ..l }
    } else {
        Locale { cjk: Cjk::Traditional, ..l }
    }
}

/// Whether the second subtag ends parsing before a third is examined: only
/// a region or script shape of length two to four continues.
pub open spec fn second_continues(s: Seq<u8>) -> bool {
    s.len() == 2 || s.len() == 3 || s.len() == 4
}

/// The locale a whole tag parses to.
pub open spec fn locale_spec(s: Seq<u8>) -> Option<Locale> {
    let e1 = dash_end(s, 0);
    match parse_language(s.subrange(0, e1)) {
        Option::None => Option::None,
        Option::Some(lz) => {
            let l1 = lz.0;
            let zh = lz.1;
            let l4 = if e1 >= s.len() {
                l1
            } else {
                let e2 = dash_end(s, e1 + 1);
                let seg2 = s.subrange(e1 + 1, e2);
                let l2 = parse_second(l1, seg2);
                if !second_continues(seg2) || l2.region_len != 0 || e2 >= s.len() {
                    l2
                } else {
                    let e3 = dash_end(s, e2 + 1);
                    parse_third(l2, s.subrange(e2 + 1, e3))
                }
            };
            Option::Some(
                if zh {
                    resolve_zh(l4)
                } else {
                    l4
                },
            )
        },
    }
}

/// Finds the next `-` separator in the tag at or after `from`.
fn find_dash(bytes: &[u8], from: usize) -> (r: usize)
    requires
        from <= bytes@.len(),
    ensures
        r == dash_end(bytes@, from as int),
        from <= r <= bytes@.len(),
{
    let n = bytes.len();
    let mut i = from;
    while i < n
        invariant
            from <= i <= n,
            n == bytes@.len(),
            dash_end(bytes@, from as int) == dash_end(bytes@, i as int),
        decreases n - i,
    {
        if *vstd::slice::slice_index_get(bytes, i) == 45 {
            return i;
        }
        i = i + 1;
    }
    n
}

impl Locale {
    /// Parses a locale from a BCP 47 language tag. A tag whose primary
    /// subtag is not two or three bytes long is rejected; subtags that do
    /// not fit their expected shapes are ignored, as the parse is lenient.
    /// Only ASCII tags carry information, so others are rejected outright.
    pub fn new(tag: &str) -> (r: Option<Locale>)
        ensures
            tag.is_ascii() ==> r == locale_spec(tag.spec_bytes()),
            !tag.is_ascii() ==> r is None,
    {
        if !tag.is_ascii() {
            return Option::None;
        }
        let bytes = tag.as_bytes();
        let n = bytes.len();
        let e1 = find_dash(bytes, 0);
        let ghost s = bytes@;
        let ghost seg1 = s.subrange(0, e1 as int);
        let mut l = Locale {
            language: [0, 0, 0],
            language_len: 0,
            script: [0, 0, 0, 0],
            region: [0, 0, 0],
            region_len: 0,
            cjk: Cjk::Unspecified,
        };
        let mut zh = false;
        if e1 == 2 {
            let a = *vstd::slice::slice_index_get(bytes, 0);
            let b = *vstd::slice::slice_index_get(bytes, 1);
            if a >= 97 && a <= 122 && b >= 97 && b <= 122 {
                if a == 122 && b == 104 {
                    zh = true;
                } else if a == 106 && b == 97 {
                    l.cjk = Cjk::Japanese;
                } else if a == 107 && b == 111 {
                    l.cjk = Cjk::Korean;
                }
                l.language = [a, b, 0];
                l.language_len = 2;
            }
        } else if e1 == 3 {
            let a = *vstd::slice::slice_index_get(bytes, 0);
            let b = *vstd::slice::slice_index_get(bytes, 1);
            let c = *vstd::slice::slice_index_get(bytes, 2);
            if a >= 97 && a <= 122 && b >= 97 && b <= 122 && c >= 97 && c <= 122 {
                zh = a == 122 && b == 104 && c == 111;
                l.language = [a, b, c];
                l.language_len = 3;
            }
        } else {
            proof {
                assert(seg1.len() == e1);
            }
            return Option::None;
        }
        proof {
            assert(seg1.len() == e1);
            assert(seg1[0] == s[0]);
            if e1 >= 2 {
                assert(seg1[1] == s[1]);
            }
            if e1 >= 3 {
                assert(seg1[2] == s[2]);
            }
            assert(parse_language(seg1) == Option::Some((l, zh)));
        }
        if e1 < n {
            let e2 = find_dash(bytes, e1 + 1);
            let ghost seg2 = s.subrange(e1 as int + 1, e2 as int);
            let seg2_len = e2 - (e1 + 1);
            let ghost l1 = l;
            let mut continues = false;
            if seg2_len == 2 {
                let a0 = *vstd::slice::slice_index_get(bytes, e1 + 1);
                let b0 = *vstd::slice::slice_index_get(bytes, e1 + 2);
                let a = if a0 >= 97 && a0 <= 122 {
                    a0 - 32
                } else {
                    a0
                };
                let b = if b0 >= 97 && b0 <= 122 {
                    b0 - 32
                } else {
                    b0
                };
                if a >= 65 && a <= 90 && b >= 65 && b <= 90 {
                    l.region = [a, b, 0];
                    l.region_len = 2;
                }
                continues = true;
            } else if seg2_len == 3 {
                let a = *vstd::slice::slice_index_get(bytes, e1 + 1);
                let b = *vstd::slice::slice_index_get(bytes, e1 + 2);
                let c = *vstd::slice::slice_index_get(bytes, e1 + 3);
                if a >= 48 && a <= 57 && b >= 48 && b <= 57 && c >= 48 && c <= 57 {
                    l.region = [a, b, c];
                    l.region_len = 3;
                }
                continues = true;
            } else if seg2_len == 4 {
                let a = *vstd::slice::slice_index_get(bytes, e1 + 1);
                let b = *vstd::slice::slice_index_get(bytes, e1 + 2);
                let c = *vstd::slice::slice_index_get(bytes, e1 + 3);
                let d = *vstd::slice::slice_index_get(bytes, e1 + 4);
                if a >= 65 && a <= 90 && b >= 97 && b <= 122 && c >= 65 && c <= 90 && d >= 97
                    && d <= 122 {
                    l.script = [a, b, c, d];
                }
                continues = true;
            }
            proof {
                assert(seg2.len() == e2 - (e1 + 1));
                if seg2.len() >= 1 {
                    assert(seg2[0] == s[e1 + 1]);
                }
                if seg2.len() >= 2 {
                    assert(seg2[1] == s[e1 + 2]);
                }
                if seg2.len() >= 3 {
                    assert(seg2[2] == s[e1 + 3]);
                }
                if seg2.len() >= 4 {
                    assert(seg2[3] == s[e1 + 4]);
                }
                assert(parse_second(l1, seg2) == l);
                assert(continues == second_continues(seg2));
            }
            if continues && l.region_len == 0 && e2 < n {
                let e3 = find_dash(bytes, e2 + 1);
                let ghost seg3 = s.subrange(e2 as int + 1, e3 as int);
                let seg3_len = e3 - (e2 + 1);
                let ghost l2 = l;
                if seg3_len == 2 {
                    let a0 = *vstd::slice::slice_index_get(bytes, e2 + 1);
                    let b0 = *vstd::slice::slice_index_get(bytes, e2 + 2);
                    let a = if a0 >= 97 && a0 <= 122 {
                        a0 - 32
                    } else {
                        a0
                    };
                    let b = if b0 >= 97 && b0 <= 122 {
                        b0 - 32
                    } else {
                        b0
                    };
                    if a >= 65 && a <= 90 && b >= 65 && b <= 90 {
                        l.region = [a, b, 0];
                        l.region_len = 2;
                    }
                }
                proof {
                    assert(seg3.len() == e3 - (e2 + 1));
                    if seg3.len() >= 1 {
                        assert(seg3[0] == s[e2 + 1]);
                    }
                    if seg3.len() >= 2 {
                        assert(seg3[1] == s[e2 + 2]);
                    }
                    assert(parse_third(l2, seg3) == l);
                }
            }
        }
        if zh {
            if l.script[0] == 72 && l.script[1] == 97 && l.script[2] == 110 && l.script[3]
                == 115 {
                l.cjk = Cjk::Simplified;
            } else {
                l.cjk = Cjk::Traditional;
            }
        }
        Option::Some(l)
    }

    /// The language component, as lowercase ASCII bytes.
    pub fn language(&self) -> (r: Vec<u8>)
        ensures
            r@.len() == (if self.language_len <= 3 {
                self.language_len as int
            } else {
                3
            }),
            forall|i: int| 0 <= i < r@.len() ==> r@[i] == self.language@[i],
    {
        let mut v: Vec<u8> = Vec::new();
        if self.language_len >= 1 {
            v.push(self.language[0]);
        }
        if self.language_len >= 2 {
            v.push(self.language[1]);
        }
        if self.language_len >= 3 {
            v.push(self.language[2]);
        }
        v
    }

    /// The script component, or `None` when the tag named none.
    pub fn script(&self) -> (r: Option<[u8; 4]>)
        ensures
            r is Some <==> self.script@[0] != 0,
            r is Some ==> r.unwrap()@ == self.script@,
    {
        if self.script[0] != 0 {
            Option::Some(self.script)
        } else {
            Option::None
        }
    }

    /// The region component, or `None` when the tag named none.
    pub fn region(&self) -> (r: Option<Vec<u8>>)
        ensures
            r is Some <==> self.region_len != 0,
            r is Some ==> r.unwrap()@.len() == (if self.region_len <= 3 {
                self.region_len as int
            } else {
                3
            }),
            r is Some ==> forall|i: int|
                0 <= i < r.unwrap()@.len() ==> r.unwrap()@[i] == self.region@[i],
    {
        if self.region_len == 0 {
            return Option::None;
        }
        let mut v: Vec<u8> = Vec::new();
        if self.region_len >= 1 {
            v.push(self.region[0]);
        }
        if self.region_len >= 2 {
            v.push(self.region[1]);
        }
        if self.region_len >= 3 {
            v.push(self.region[2]);
        }
        Option::Some(v)
    }

    /// The CJK flavor the locale selects.
    pub fn cjk(&self) -> (r: Cjk)
        ensures
            r == self.cjk,
    {
        self.cjk
    }
}

} // verus!
