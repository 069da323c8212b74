use vstd::prelude::*;

verus! {

/// The delimiter that, following an option character, marks it as taking an argument.
pub const ARG_DELIMITER: char = ':';

/// The mapping described by `s[i..]`, scanned from position `i` onward on top of `m`: each
/// character is an option, taking an argument when the next character is the delimiter.
/// A later entry for the same character overrides an earlier one.
pub open spec fn scan_optstring(s: Seq<char>, i: int, m: Map<char, bool>) -> Map<char, bool>
    decreases s.len() - i,
{
    if i < 0 || i >= s.len() {
        m
    } else if i + 1 < s.len() && s[i + 1] == ARG_DELIMITER {
        scan_optstring(s, i + 2, m.insert(s[i], true))
    } else {
        scan_optstring(s, i + 1, m.insert(s[i], false))
    }
}

/// The option characters that `optstring` declares, each with whether it takes an argument.
pub open spec fn optstring_map(optstring: Seq<char>) -> Map<char, bool> {
    scan_optstring(optstring, 0, Map::empty())
}

/// The entry for `c` in a list of entries where the last one for a character wins.
pub open spec fn entry_lookup(e: Seq<(char, bool)>, c: char) -> Option<bool>
    decreases e.len(),
{
    if e.len() == 0 {
        None
    } else if e.last().0 == c {
        Some(e.last().1)
    } else {
        entry_lookup(e.drop_last(), c)
    }
}

/// The mapping that a list of entries stands for.
pub open spec fn entries_map(e: Seq<(char, bool)>) -> Map<char, bool> {
    Map::new(|c: char| entry_lookup(e, c) is Some, |c: char| entry_lookup(e, c)->0)
}

proof fn lemma_entries_push(e: Seq<(char, bool)>, c: char, b: bool)
    ensures
        entries_map(e.push((c, b))) == entries_map(e).insert(c, b),
{
    let f = e.push((c, b));
    assert(f.drop_last() =~= e);
    assert(entries_map(f) =~= entries_map(e).insert(c, b));
}

/// The option characters a program recognises, and which of them take an argument.
#[derive(Debug, Clone)]
pub struct OptionSpec {
    entries: Vec<(char, bool)>,
}

impl View for OptionSpec {
    type V = Map<char, bool>;

    closed spec fn view(&self) -> Map<char, bool> {
        entries_map(self.entries@)
    }
}

impl OptionSpec {
    /// Reads an option-specification string: each character is an option, and a character
    /// followed by a colon takes an argument. Nothing in it is an error.
    pub fn parse(optstring: &str) -> (r: Self)
        ensures
            r@ == optstring_map(optstring@),
    {
        let len: usize = optstring.unicode_len();
        let mut entries: Vec<(char, bool)> = Vec::new();
        let mut i: usize = 0;
        proof {
            assert(entries_map(entries@) =~= Map::<char, bool>::empty());
        }
        while i < len
            invariant
                len == optstring@.len(),
                i <= len,
                scan_optstring(optstring@, i as int, entries_map(entries@)) == optstring_map(
                    optstring@,
                ),
            decreases len - i,
        {
            let c = optstring.get_char(i);
            proof {
                lemma_entries_push(entries@, c, i + 1 < len && optstring@[i + 1] == ARG_DELIMITER);
            }
            if i + 1 < len && optstring.get_char(i + 1) == ARG_DELIMITER {
                entries.push((c, true));
                i = i + 2;
            } else {
                entries.push((c, false));
                i = i + 1;
            }
        }
        OptionSpec { entries }
    }

    /// Whether `c` is a known option (`Some`), and if so whether it takes an argument.
    pub fn lookup(&self, c: char) -> (r: Option<bool>)
        ensures
            r == (if self@.contains_key(c) { Some(self@[c]) } else { None }),
    {
        let mut j: usize = self.entries.len();
        assert(self.entries@.subrange(0, j as int) =~= self.entries@);
        while j > 0
            invariant
                j <= self.entries@.len(),
                entry_lookup(self.entries@, c) == entry_lookup(self.entries@.subrange(0, j as int), c),
            decreases j,
        {
            let e = self.entries[j - 1];
            assert(self.entries@.subrange(0, j as int).drop_last() =~= self.entries@.subrange(
                0,
                j - 1,
            ));
            if e.0 == c {
                return Some(e.1);
            }
            j = j - 1;
        }
        None
    }
}

} // verus!
