//! Whether the files are processed once or watched, and how a word names
//! one of the two.
use vstd::prelude::*;

verus! {

/// How the run loop runs.
#[derive(Clone, Copy, Debug, PartialEq, Eq, Structural)]
pub enum Mode {
    /// One sweep over every file, then stop.
    Compile,
    /// Sweep again and again, processing the files that changed.
    Watch,
}

/// `s` without one or two leading dashes.
pub open spec fn strip_dashes(s: Seq<char>) -> Seq<char> {
    if s.len() >= 2 && s[0] == '-' && s[1] == '-' {
        s.skip(2)
    } else if s.len() >= 1 && s[0] == '-' {
        s.skip(1)
    } else {
        s
    }
}

/// The mode that a word names: `c`, `C`, `compile` or `Compile`, or `w`,
/// `W`, `watch` or `Watch`, each also after one or two dashes.
pub open spec fn mode_named(s: Seq<char>) -> Option<Mode> {
    let w = strip_dashes(s);
    if w == seq!['c'] || w == seq!['C'] || w == seq!['c', 'o', 'm', 'p', 'i', 'l', 'e'] || w
        == seq!['C', 'o', 'm', 'p', 'i', 'l', 'e'] {
        Some(Mode::Compile)
    } else if w == seq!['w'] || w == seq!['W'] || w == seq!['w', 'a', 't', 'c', 'h'] || w
        == seq!['W', 'a', 't', 'c', 'h'] {
        Some(Mode::Watch)
    } else {
        None
    }
}

/// Whether the characters of `s` from index `from` on are exactly `word`.
fn rest_is(s: &Vec<char>, from: usize, word: &Vec<char>) -> (r: bool)
    requires
        from <= s@.len(),
    ensures
        r == (s@.skip(from as int) == word@),
{
    if s.len() - from != word.len() {
        assert(s@.skip(from as int).len() != word@.len());
        return false;
    }
    let n = s.len();
    let mut k: usize = 0;
    while k < word.len()
        invariant
            n == s@.len(),
            from <= s@.len(),
            s@.len() - from == word@.len(),
            k <= word@.len(),
            forall|j: int| 0 <= j < k ==> s@[from + j] == word@[j],
        decreases word@.len() - k,
    {
        if s[from + k] != word[k] {
            assert(s@.skip(from as int)[k as int] != word@[k as int]);
            return false;
        }
        k = k + 1;
    }
    assert(s@.skip(from as int) =~= word@);
    true
}

fn chars_of(s: &str) -> (r: Vec<char>)
    ensures
        r@ == s@,
{
    let n = s.unicode_len();
    let mut out: Vec<char> = Vec::new();
    let mut k: usize = 0;
    while k < n
        invariant
            n == s@.len(),
            k <= n,
            out@ == s@.take(k as int),
        decreases n - k,
    {
        out.push(s.get_char(k));
        assert(out@ =~= s@.take((k + 1) as int));
        k = k + 1;
    }
    assert(out@ =~= s@);
    out
}

impl Mode {
    /// The mode that the word `s` names, if any.
    pub fn parse_word(s: &str) -> (r: Option<Mode>)
        ensures
            r == mode_named(s@),
    {
        let c = chars_of(s);
        let from: usize = if c.len() >= 2 && c[0] == '-' && c[1] == '-' {
            2
        } else if c.len() >= 1 && c[0] == '-' {
            1
        } else {
            0
        };
        assert(c@.skip(from as int) == strip_dashes(s@));
        let c1 = vec!['c'];
        let c2 = vec!['C'];
        let c3 = vec!['c', 'o', 'm', 'p', 'i', 'l', 'e'];
        let c4 = vec!['C', 'o', 'm', 'p', 'i', 'l', 'e'];
        let w1 = vec!['w'];
        let w2 = vec!['W'];
        let w3 = vec!['w', 'a', 't', 'c', 'h'];
        let w4 = vec!['W', 'a', 't', 'c', 'h'];
        assert(c1@ =~= seq!['c'] && c2@ =~= seq!['C']);
        assert(c3@ =~= seq!['c', 'o', 'm', 'p', 'i', 'l', 'e']);
        assert(c4@ =~= seq!['C', 'o', 'm', 'p', 'i', 'l', 'e']);
        assert(w1@ =~= seq!['w'] && w2@ =~= seq!['W']);
        assert(w3@ =~= seq!['w', 'a', 't', 'c', 'h']);
        assert(w4@ =~= seq!['W', 'a', 't', 'c', 'h']);
        if rest_is(&c, from, &c1) || rest_is(&c, from, &c2) || rest_is(&c, from, &c3) || rest_is(
            &c,
            from,
            &c4,
        ) {
            Some(Mode::Compile)
        } else if rest_is(&c, from, &w1) || rest_is(&c, from, &w2) || rest_is(&c, from, &w3)
            || rest_is(&c, from, &w4) {
            Some(Mode::Watch)
        } else {
            None
        }
    }
}

impl core::str::FromStr for Mode {
    type Err = ();

    fn from_str(s: &str) -> (r: Result<Mode, ()>)
        ensures
            r == match mode_named(s@) {
                Some(m) => Ok::<Mode, ()>(m),
                None => Err::<Mode, ()>(()),
            },
    {
        match Mode::parse_word(s) {
            Some(m) => Ok(m),
            None => Err(()),
        }
    }
}

} // verus!
