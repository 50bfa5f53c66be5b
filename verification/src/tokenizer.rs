//! Splitting a raw line into fields on the first delimiter of a preference
//! list that occurs in it.

use vstd::prelude::*;
use vstd::string::{StrSliceExecFns, StringExecFns};

verus! {

/// The texts of a list of strings, in order.
pub open spec fn texts(fields: Seq<String>) -> Seq<Seq<char>> {
    fields.map_values(|f: String| f@)
}

/// The pieces of `s` between the occurrences of `d`: one more piece than
/// there are occurrences, empty pieces included.
pub open spec fn split_on(s: Seq<char>, d: char) -> Seq<Seq<char>>
    decreases s.len(),
{
    if s.len() == 0 {
        seq![Seq::<char>::empty()]
    } else {
        let before = split_on(s.drop_last(), d);
        if s.last() == d {
            before.push(Seq::<char>::empty())
        } else {
            before.drop_last().push(before.last().push(s.last()))
        }
    }
}

/// The first delimiter of `spliters` that occurs anywhere in `line`.
pub open spec fn chosen_spliter(line: Seq<char>, spliters: Seq<char>) -> Option<char>
    decreases spliters.len(),
{
    if spliters.len() == 0 {
        None
    } else if line.contains(spliters[0]) {
        Some(spliters[0])
    } else {
        chosen_spliter(line, spliters.drop_first())
    }
}

/// The fields of `line`: split on the chosen delimiter, or the whole line
/// as one field where no delimiter occurs.
pub open spec fn tokens(line: Seq<char>, spliters: Seq<char>) -> Seq<Seq<char>> {
    match chosen_spliter(line, spliters) {
        Some(d) => split_on(line, d),
        None => seq![line],
    }
}

/// Splitting always yields at least one piece.
pub proof fn lemma_split_on_nonempty(s: Seq<char>, d: char)
    ensures
        split_on(s, d).len() >= 1,
    decreases s.len(),
{
    if s.len() > 0 {
        lemma_split_on_nonempty(s.drop_last(), d);
    }
}

/// A line always has at least one field.
pub proof fn lemma_tokens_nonempty(line: Seq<char>, spliters: Seq<char>)
    ensures
        tokens(line, spliters).len() >= 1,
{
    match chosen_spliter(line, spliters) {
        Some(d) => lemma_split_on_nonempty(line, d),
        None => {},
    }
}

/// The default delimiter preference: a colon before a semicolon.
pub fn default_spliters() -> (spliters: Vec<char>)
    ensures
        spliters@ == seq![':', ';'],
{
    let spliters = vec![':', ';'];
    assert(spliters@ =~= seq![':', ';']);
    spliters
}

/// The characters of `line`, in order.
pub fn chars_of(line: &str) -> (chars: Vec<char>)
    ensures
        chars@ == line@,
{
    let mut chars: Vec<char> = Vec::new();
    for c in it: line.chars()
        invariant
            it.seq() == line@,
            chars@ == it.seq().take(it.index() as int),
    {
        chars.push(c);
        assert(it.seq().take(it.index() + 1) =~= it.seq().take(it.index() as int).push(c));
    }
    assert(line@.take(line@.len() as int) =~= line@);
    chars
}

/// Whether `d` occurs among `chars`.
pub fn contains_char(chars: &Vec<char>, d: char) -> (found: bool)
    ensures
        found == chars@.contains(d),
{
    let mut i: usize = 0;
    while i < chars.len()
        invariant
            i <= chars.len(),
            forall|j: int| 0 <= j < i ==> chars@[j] != d,
        decreases chars.len() - i,
    {
        if chars[i] == d {
            return true;
        }
        i += 1;
    }
    false
}

/// The first delimiter of the preference list that occurs among `chars`.
pub fn first_spliter(chars: &Vec<char>, spliters: &Vec<char>) -> (r: Option<char>)
    ensures
        r == chosen_spliter(chars@, spliters@),
{
    let mut k: usize = 0;
    proof {
        assert(spliters@.skip(0) =~= spliters@);
    }
    while k < spliters.len()
        invariant
            k <= spliters.len(),
            chosen_spliter(chars@, spliters@) == chosen_spliter(chars@, spliters@.skip(k as int)),
        decreases spliters.len() - k,
    {
        proof {
            assert(spliters@.skip(k as int).drop_first() =~= spliters@.skip(k + 1));
        }
        if contains_char(chars, spliters[k]) {
            return Some(spliters[k]);
        }
        k += 1;
    }
    None
}

/// Splits `line`, whose characters are `chars`, on every occurrence of `d`.
fn split_chars(line: &str, chars: &Vec<char>, d: char) -> (fields: Vec<String>)
    requires
        chars@ == line@,
    ensures
        texts(fields@) == split_on(line@, d),
{
    let n: usize = chars.len();
    let mut fields: Vec<String> = Vec::new();
    let mut start: usize = 0;
    let mut i: usize = 0;
    proof {
        assert(line@.take(0) =~= Seq::<char>::empty());
        assert(line@.subrange(0, 0) =~= Seq::<char>::empty());
        assert(texts(fields@).push(Seq::<char>::empty()) =~= seq![Seq::<char>::empty()]);
    }
    while i < n
        invariant
            n == line@.len(),
            chars@ == line@,
            start <= i <= n,
            split_on(line@.take(i as int), d) == texts(fields@).push(
                line@.subrange(start as int, i as int),
            ),
        decreases n - i,
    {
        let ghost prefix = line@.take(i as int);
        let ghost next = line@.take(i + 1);
        let ghost done = texts(fields@);
        proof {
            assert(next.drop_last() =~= prefix);
            assert(next.last() == line@[i as int]);
        }
        if chars[i] == d {
            fields.push(String::from_str(line.substring_char(start, i)));
            proof {
                assert(texts(fields@) =~= done.push(line@.subrange(start as int, i as int)));
                assert(line@.subrange(i + 1, i + 1) =~= Seq::<char>::empty());
            }
            start = i + 1;
        } else {
            proof {
                let before = done.push(line@.subrange(start as int, i as int));
                assert(before.drop_last() =~= done);
                assert(before.last().push(line@[i as int]) =~= line@.subrange(
                    start as int,
                    i + 1,
                ));
            }
        }
        i += 1;
    }
    proof {
        assert(line@.take(n as int) =~= line@);
    }
    let ghost done = texts(fields@);
    fields.push(String::from_str(line.substring_char(start, n)));
    proof {
        assert(texts(fields@) =~= done.push(line@.subrange(start as int, n as int)));
    }
    fields
}

/// Whether `d` occurs in `line`.
pub fn line_contains(line: &str, d: char) -> (found: bool)
    ensures
        found == line@.contains(d),
{
    contains_char(&chars_of(line), d)
}

/// The first delimiter of the preference list that occurs in `line`.
pub fn spliter_find(line: &str, spliters: &Vec<char>) -> (r: Option<char>)
    ensures
        r == chosen_spliter(line@, spliters@),
{
    first_spliter(&chars_of(line), spliters)
}

/// Splits `line` on every occurrence of `d`.
pub fn split_line(line: &str, d: char) -> (fields: Vec<String>)
    ensures
        texts(fields@) == split_on(line@, d),
{
    split_chars(line, &chars_of(line), d)
}

/// Splits `line` into fields on the first delimiter of `spliters` that
/// occurs in it; without one the whole line is the only field.
pub fn tokenize(line: &str, spliters: &Vec<char>) -> (fields: Vec<String>)
    ensures
        texts(fields@) == tokens(line@, spliters@),
        fields@.len() >= 1,
{
    proof {
        lemma_tokens_nonempty(line@, spliters@);
    }
    let chars = chars_of(line);
    match first_spliter(&chars, spliters) {
        Some(d) => split_chars(line, &chars, d),
        None => {
            let fields = vec![String::from_str(line)];
            assert(texts(fields@) =~= seq![line@]);
            fields
        },
    }
}

/// The fields written one after another with `sep` between neighbours.
pub open spec fn joined(fields: Seq<Seq<char>>, sep: Seq<char>) -> Seq<char>
    decreases fields.len(),
{
    if fields.len() == 0 {
        Seq::empty()
    } else if fields.len() == 1 {
        fields[0]
    } else {
        joined(fields.drop_last(), sep) + sep + fields.last()
    }
}

/// Joins `fields` into one line with `sep` between neighbours.
pub fn join_fields(fields: &Vec<String>, sep: &str) -> (line: String)
    ensures
        line@ == joined(texts(fields@), sep@),
{
    let mut line = String::new();
    let mut k: usize = 0;
    while k < fields.len()
        invariant
            k <= fields.len(),
            line@ == joined(texts(fields@).take(k as int), sep@),
        decreases fields.len() - k,
    {
        let ghost head = texts(fields@).take(k as int);
        let ghost next = texts(fields@).take(k + 1);
        proof {
            assert(next.drop_last() =~= head);
            assert(next.last() == fields@[k as int]@);
        }
        if k > 0 {
            line.append(sep);
        }
        line.append(fields[k].as_str());
        proof {
            if k == 0 {
                assert(line@ =~= next[0]);
            }
        }
        k += 1;
    }
    proof {
        assert(texts(fields@).take(fields@.len() as int) =~= texts(fields@));
    }
    line
}

/// Joining the pieces of a split with the delimiter gives the text back.
pub proof fn lemma_join_of_split(s: Seq<char>, d: char)
    ensures
        joined(split_on(s, d), seq![d]) == s,
    decreases s.len(),
{
    lemma_split_on_nonempty(s, d);
    if s.len() > 0 {
        let head = s.drop_last();
        let before = split_on(head, d);
        lemma_split_on_nonempty(head, d);
        lemma_join_of_split(head, d);
        lemma_joined_last(before, seq![d]);
        if s.last() == d {
            let now = before.push(Seq::<char>::empty());
            assert(now.drop_last() =~= before);
            assert(joined(now, seq![d]) =~= joined(before, seq![d]) + seq![d]);
            assert(head + seq![d] =~= s);
        } else {
            let now = before.drop_last().push(before.last().push(s.last()));
            assert(now.drop_last() =~= before.drop_last());
            lemma_joined_last(now, seq![d]);
            assert(joined(now, seq![d]) =~= joined(before, seq![d]).push(s.last()));
            assert(head.push(s.last()) =~= s);
        }
    }
}

/// A joined line is what precedes its last field (separator included where
/// there is an earlier field), followed by that field.
pub proof fn lemma_joined_last(fields: Seq<Seq<char>>, sep: Seq<char>)
    requires
        fields.len() >= 1,
    ensures
        joined(fields, sep) == if fields.len() == 1 {
            fields.last()
        } else {
            joined(fields.drop_last(), sep) + sep + fields.last()
        },
{
}

/// No piece of a split holds the delimiter.
pub proof fn lemma_split_pieces_clean(s: Seq<char>, d: char)
    ensures
        forall|k: int| 0 <= k < split_on(s, d).len() ==> !(#[trigger] split_on(s, d)[k]).contains(d),
    decreases s.len(),
{
    if s.len() > 0 {
        let before = split_on(s.drop_last(), d);
        lemma_split_on_nonempty(s.drop_last(), d);
        lemma_split_pieces_clean(s.drop_last(), d);
        if s.last() != d {
            let grown = before.last().push(s.last());
            assert forall|j: int| 0 <= j < grown.len() implies grown[j] != d by {
                if j < before.last().len() {
                    assert(before.last().contains(grown[j]));
                }
            }
            assert(!grown.contains(d));
        }
    }
}

} // verus!
