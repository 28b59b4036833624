use vstd::prelude::*;
use vstd::string::StrSliceExecFns;
use vstd::string::StringExecFns;

verus! {

broadcast use vstd::string::group_string_axioms;

/// The index of the first occurrence of `c` in `s`, or -1 when `c` is absent.
pub open spec fn find_char(s: Seq<char>, c: char) -> int
    decreases s.len(),
{
    if s.len() == 0 {
        -1
    } else if s[0] == c {
        0
    } else {
        let r = find_char(s.drop_first(), c);
        if r == -1 {
            -1
        } else {
            r + 1
        }
    }
}

/// A found index lies inside the string.
pub proof fn lemma_find_char_range(s: Seq<char>, c: char)
    ensures
        find_char(s, c) == -1 || (0 <= find_char(s, c) < s.len() && s[find_char(s, c)] == c),
    decreases s.len(),
{
    if s.len() > 0 && s[0] != c {
        lemma_find_char_range(s.drop_first(), c);
    }
}

proof fn lemma_find_char_at(s: Seq<char>, c: char, i: int)
    requires
        0 <= i <= s.len(),
        forall|j: int| 0 <= j < i ==> s[j] != c,
    ensures
        i == s.len() ==> find_char(s, c) == -1,
        i < s.len() && s[i] == c ==> find_char(s, c) == i,
    decreases i,
{
    if i > 0 {
        lemma_find_char_at(s.drop_first(), c, i - 1);
    }
}

/// The position of the first `c` in `s`, if any.
pub fn find_first(s: &str, c: char) -> (r: Option<usize>)
    ensures
        match r {
            Some(i) => i as int == find_char(s@, c) && i < s@.len(),
            None => find_char(s@, c) == -1,
        },
{
    let n = s.unicode_len();
    let mut i: usize = 0;
    while i < n
        invariant
            i <= n,
            n == s@.len(),
            forall|j: int| 0 <= j < i ==> s@[j] != c,
        decreases n - i,
    {
        if s.get_char(i) == c {
            proof {
                lemma_find_char_at(s@, c, i as int);
            }
            return Some(i);
        }
        i = i + 1;
    }
    proof {
        lemma_find_char_at(s@, c, n as int);
    }
    None
}

/// One target device: a base URL and the secret shared with it.
#[derive(Debug, Clone, PartialEq, Eq)]
pub struct ApiLocator(pub String, pub String);

impl ApiLocator {
    /// Splits `s` at the first `=` into a base URL and a secret; a string
    /// without `=` names no locator and is rejected with a message.
    pub fn from_str(s: &str) -> (r: Result<ApiLocator, String>)
        ensures
            find_char(s@, '=') >= 0 ==> (r matches Ok(loc) && loc.0@ == s@.take(
                find_char(s@, '='),
            ) && loc.1@ == s@.skip(find_char(s@, '=') + 1)),
            find_char(s@, '=') == -1 ==> (r matches Err(m) && m@ == "invalid locator: '"@ + s@
                + "'. It must be of 'https://url:port=secret' convention"@),
    {
        match find_first(s, '=') {
            Some(i) => {
                let n = s.unicode_len();
                let base = s.substring_char(0, i).to_owned();
                let secret = s.substring_char(i + 1, n).to_owned();
                proof {
                    assert(s@.subrange(0, i as int) =~= s@.take(i as int));
                    assert(s@.subrange(i as int + 1, n as int) =~= s@.skip(i as int + 1));
                }
                Ok(ApiLocator(base, secret))
            },
            None => {
                let mut m = String::from_str("invalid locator: '");
                m.append(s);
                m.append("'. It must be of 'https://url:port=secret' convention");
                Err(m)
            },
        }
    }
}

/// The locators named by one piece of a space-separated list: one when the
/// piece contains `=`, none otherwise.
pub open spec fn locator_piece(piece: Seq<char>) -> Seq<(Seq<char>, Seq<char>)> {
    let eq = find_char(piece, '=');
    if eq == -1 {
        Seq::empty()
    } else {
        seq![(piece.take(eq), piece.skip(eq + 1))]
    }
}

/// The locators named in a space-separated list, in order; pieces without `=`
/// are skipped.
pub open spec fn locators_of(s: Seq<char>) -> Seq<(Seq<char>, Seq<char>)>
    decreases s.len(),
    via locators_of_decreases
{
    let sp = find_char(s, ' ');
    if sp == -1 {
        locator_piece(s)
    } else {
        locator_piece(s.take(sp)) + locators_of(s.skip(sp + 1))
    }
}

#[via_fn]
proof fn locators_of_decreases(s: Seq<char>) {
    lemma_find_char_range(s, ' ');
}

/// The base URLs and secrets of a sequence of locators.
pub open spec fn locators_view(v: Seq<ApiLocator>) -> Seq<(Seq<char>, Seq<char>)> {
    v.map_values(|l: ApiLocator| (l.0@, l.1@))
}

/// Parses a space-separated list of locators, skipping pieces that name none.
pub fn locators_from_str(s: &str) -> (r: Vec<ApiLocator>)
    ensures
        locators_view(r@) == locators_of(s@),
{
    let mut out: Vec<ApiLocator> = Vec::new();
    let mut rest: String = s.to_owned();
    proof {
        assert(locators_view(out@) + locators_of(rest@) =~= locators_of(s@));
    }
    loop
        invariant_except_break
            locators_view(out@) + locators_of(rest@) =~= locators_of(s@),
        ensures
            locators_view(out@) =~= locators_of(s@),
        decreases rest@.len(),
    {
        let ghost rest_before = rest@;
        let ghost out_before = out@;
        let piece: String;
        let mut done = false;
        match find_first(rest.as_str(), ' ') {
            Some(sp) => {
                let n = rest.as_str().unicode_len();
                let p = rest.as_str().substring_char(0, sp).to_owned();
                let next = rest.as_str().substring_char(sp + 1, n).to_owned();
                proof {
                    assert(rest_before.subrange(0, sp as int) =~= rest_before.take(sp as int));
                    assert(rest_before.subrange(sp as int + 1, n as int) =~= rest_before.skip(
                        sp as int + 1,
                    ));
                }
                piece = p;
                rest = next;
            },
            None => {
                piece = rest;
                rest = String::new();
                done = true;
            },
        }
        match ApiLocator::from_str(piece.as_str()) {
            Ok(loc) => {
                proof {
                    lemma_find_char_range(piece@, '=');
                    assert(locator_piece(piece@) =~= seq![(loc.0@, loc.1@)]);
                    assert(locators_view(out@.push(loc)) =~= locators_view(out@).push(
                        (loc.0@, loc.1@),
                    ));
                }
                out.push(loc);
            },
            Err(_) => {
                proof {
                    lemma_find_char_range(piece@, '=');
                    assert(locator_piece(piece@) =~= Seq::<(Seq<char>, Seq<char>)>::empty());
                }
            },
        }
        if done {
            proof {
                reveal_strlit("");
                assert(locators_of(rest@) =~= Seq::<(Seq<char>, Seq<char>)>::empty());
                assert(locators_view(out@) =~= locators_view(out_before) + locator_piece(
                    rest_before,
                ));
                assert(locators_of(rest_before) =~= locator_piece(rest_before));
            }
            break;
        }
        proof {
            assert(locators_of(rest_before) =~= locator_piece(piece@) + locators_of(rest@));
            assert(locators_view(out@) + locators_of(rest@) =~= locators_of(s@));
        }
    }
    out
}

} // verus!
