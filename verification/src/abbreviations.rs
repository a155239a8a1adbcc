//! Expansion of abbreviations in announcement text.
//!
//! The text is scanned as alternating words (runs of letters and periods)
//! and delimiters; every word with an entry in the table is replaced by its
//! expansion, everything else is kept as it is. The table itself is an
//! external collaborator: callers load it and hand it in.

use vstd::prelude::*;
use vstd::string::StringExecFns;

use crate::strutil::{
    chars_range, find_char, index_of_first, push_char, trim_str, trimmed,
};

verus! {

/// An abbreviation-to-expansion table; later entries win on duplicates,
/// as in a map filled entry by entry.
pub struct AbbreviationTable {
    pub entries: Vec<(String, String)>,
}

/// The expansion stored for `word`: that of the last entry whose
/// abbreviation equals it.
pub open spec fn lookup_expansion(entries: Seq<(String, String)>, word: Seq<char>) -> Option<
    Seq<char>,
>
    decreases entries.len(),
{
    if entries.len() == 0 {
        Option::None
    } else if entries.last().0@ == word {
        Option::Some(entries.last().1@)
    } else {
        lookup_expansion(entries.drop_last(), word)
    }
}

impl AbbreviationTable {
    /// An empty table.
    pub fn new() -> (r: AbbreviationTable)
        ensures
            r.entries@ == Seq::<(String, String)>::empty(),
    {
        AbbreviationTable { entries: Vec::new() }
    }

    /// Append one abbreviation with its expansion.
    pub fn add(&mut self, abbreviation: String, expansion: String)
        ensures
            final(self).entries@ == old(self).entries@.push((abbreviation, expansion)),
    {
        self.entries.push((abbreviation, expansion));
    }

    /// The expansion for `word`, when the table has one.
    pub fn lookup(&self, word: &String) -> (r: Option<&String>)
        ensures
            r matches Some(s) ==> lookup_expansion(self.entries@, word@) == Option::Some(s@),
            r is None ==> lookup_expansion(self.entries@, word@) is None,
    {
        let n = self.entries.len();
        let mut i: usize = n;
        assert(self.entries@.take(n as int) =~= self.entries@);
        while i > 0
            invariant
                n == self.entries@.len(),
                0 <= i <= n,
                lookup_expansion(self.entries@, word@) == lookup_expansion(
                    self.entries@.take(i as int),
                    word@,
                ),
            decreases i,
        {
            proof {
                assert(self.entries@.take(i as int).last() == self.entries@[i - 1]);
                assert(self.entries@.take(i as int).drop_last() =~= self.entries@.take(i - 1));
            }
            if self.entries[i - 1].0 == *word {
                return Some(&self.entries[i - 1].1);
            }
            i = i - 1;
        }
        None
    }
}

/// What one line of a table definition means: nothing for blank lines and
/// "#" comments, otherwise the trimmed text before the first "=" as the
/// abbreviation and the trimmed text between the first and second "=" (or
/// the end) as its expansion; a line without "=" is ignored.
pub open spec fn line_parse(line: Seq<char>) -> Option<(Seq<char>, Seq<char>)> {
    let t = trimmed(line);
    if t.len() == 0 || t[0] == '#' {
        Option::None
    } else {
        let i = index_of_first(t, '=');
        if i == t.len() {
            Option::None
        } else {
            let rest = t.skip(i + 1);
            let j = index_of_first(rest, '=');
            Option::Some((trimmed(t.take(i)), trimmed(rest.take(j))))
        }
    }
}

/// Parse one line of a table definition.
pub fn parse_abbreviation_line(line: &str) -> (r: Option<(String, String)>)
    ensures
        r is Some <==> line_parse(line@) is Some,
        r matches Some(p) ==> line_parse(line@) matches Some(q) && p.0@ == q.0 && p.1@ == q.1,
{
    let t = trim_str(line);
    let tn = t.as_str().unicode_len();
    if tn == 0 {
        return None;
    }
    if t.as_str().get_char(0) == '#' {
        return None;
    }
    let i = find_char(t.as_str(), '=');
    if i == tn {
        return None;
    }
    let rest = chars_range(t.as_str(), i + 1, tn);
    proof {
        assert(rest@ =~= t@.skip(i + 1));
    }
    let j = find_char(rest.as_str(), '=');
    let abbrev_raw = chars_range(t.as_str(), 0, i);
    let expansion_raw = chars_range(rest.as_str(), 0, j);
    proof {
        assert(abbrev_raw@ =~= t@.take(i as int));
        assert(expansion_raw@ =~= rest@.take(j as int));
    }
    let abbreviation = trim_str(abbrev_raw.as_str());
    let expansion = trim_str(expansion_raw.as_str());
    Some((abbreviation, expansion))
}

/// The entries one line contributes to the table.
pub open spec fn line_entries(line: Seq<char>) -> Seq<(Seq<char>, Seq<char>)> {
    match line_parse(line) {
        Option::Some(p) => seq![p],
        Option::None => Seq::empty(),
    }
}

/// The entries of the remaining definition text `s`, with `cur` the line
/// read so far: a newline finishes the current line, and the end of the
/// text finishes the last one.
pub open spec fn table_rec(s: Seq<char>, cur: Seq<char>) -> Seq<(Seq<char>, Seq<char>)>
    decreases s.len(),
{
    if s.len() == 0 {
        line_entries(cur)
    } else if s[0] == '\n' {
        line_entries(cur) + table_rec(s.drop_first(), Seq::empty())
    } else {
        table_rec(s.drop_first(), cur.push(s[0]))
    }
}

/// The abbreviation table a definition text describes, line by line.
pub open spec fn parsed_table(text: Seq<char>) -> Seq<(Seq<char>, Seq<char>)> {
    table_rec(text, Seq::empty())
}

/// The entries of a table as character sequences.
pub open spec fn entry_views(entries: Seq<(String, String)>) -> Seq<(Seq<char>, Seq<char>)> {
    entries.map_values(|p: (String, String)| (p.0@, p.1@))
}

/// Build a table from a definition text: one "abbreviation = expansion"
/// entry per line, with blank lines and "#" comments ignored.
pub fn parse_abbreviation_table(text: &str) -> (r: AbbreviationTable)
    ensures
        entry_views(r.entries@) == parsed_table(text@),
{
    let mut table = AbbreviationTable::new();
    let mut line = String::new();
    let n = text.unicode_len();
    let mut i: usize = 0;
    proof {
        assert(text@.skip(0) =~= text@);
        assert(entry_views(table.entries@) =~= Seq::<(Seq<char>, Seq<char>)>::empty());
        assert(Seq::<(Seq<char>, Seq<char>)>::empty() + table_rec(text@, Seq::<char>::empty())
            =~= table_rec(text@, Seq::<char>::empty()));
    }
    while i < n
        invariant
            n == text@.len(),
            0 <= i <= n,
            parsed_table(text@) == entry_views(table.entries@) + table_rec(
                text@.skip(i as int),
                line@,
            ),
        decreases n - i,
    {
        let ghost pre_entries = entry_views(table.entries@);
        let ghost pre_line = line@;
        let c = text.get_char(i);
        proof {
            assert(text@.skip(i as int)[0] == text@[i as int]);
            assert(text@.skip(i as int).drop_first() =~= text@.skip(i + 1));
        }
        if c == '\n' {
            match parse_abbreviation_line(line.as_str()) {
                Some(p) => {
                    table.add(p.0, p.1);
                },
                None => {},
            }
            line = String::new();
            proof {
                assert(entry_views(table.entries@) =~= pre_entries + line_entries(pre_line));
                assert(pre_entries + table_rec(text@.skip(i as int), pre_line) =~= entry_views(
                    table.entries@,
                ) + table_rec(text@.skip(i + 1), line@));
            }
        } else {
            push_char(&mut line, c);
            proof {
                assert(table_rec(text@.skip(i as int), pre_line) == table_rec(
                    text@.skip(i + 1),
                    line@,
                ));
            }
        }
        i = i + 1;
    }
    let ghost pre_entries = entry_views(table.entries@);
    let ghost pre_line = line@;
    proof {
        assert(text@.skip(n as int) =~= Seq::<char>::empty());
        assert(table_rec(text@.skip(n as int), pre_line) == line_entries(pre_line));
    }
    match parse_abbreviation_line(line.as_str()) {
        Some(p) => {
            table.add(p.0, p.1);
        },
        None => {},
    }
    proof {
        assert(entry_views(table.entries@) =~= pre_entries + line_entries(pre_line));
    }
    table
}

/// Word characters: the letters a word is made of, plus the period, so
/// that dotted abbreviations stay one word.
pub open spec fn is_word_char(c: char) -> bool {
    (65 <= c as u32 && c as u32 <= 90) || (97 <= c as u32 && c as u32 <= 122) || c == '.'
}

fn exec_is_word_char(c: char) -> (r: bool)
    ensures
        r == is_word_char(c),
{
    let u = c as u32;
    (65 <= u && u <= 90) || (97 <= u && u <= 122) || c == '.'
}

/// What a finished word contributes to the output: its expansion when the
/// table has one, the word itself otherwise, nothing for the empty word.
pub open spec fn expanded_word(entries: Seq<(String, String)>, w: Seq<char>) -> Seq<char> {
    if w.len() == 0 {
        Seq::empty()
    } else {
        match lookup_expansion(entries, w) {
            Option::Some(e) => e,
            Option::None => w,
        }
    }
}

/// The expansion of the remaining text `s`, with `cur` the word read so
/// far: word characters extend the current word, a delimiter emits the
/// word and then itself, and the end of the text emits the last word.
pub open spec fn expansion_rec(
    entries: Seq<(String, String)>,
    s: Seq<char>,
    cur: Seq<char>,
) -> Seq<char>
    decreases s.len(),
{
    if s.len() == 0 {
        expanded_word(entries, cur)
    } else if is_word_char(s[0]) {
        expansion_rec(entries, s.drop_first(), cur.push(s[0]))
    } else {
        expanded_word(entries, cur) + seq![s[0]] + expansion_rec(
            entries,
            s.drop_first(),
            Seq::empty(),
        )
    }
}

/// The whole text with every word expanded through the table.
pub open spec fn expanded_text(entries: Seq<(String, String)>, s: Seq<char>) -> Seq<char> {
    expansion_rec(entries, s, Seq::empty())
}

/// Replace every abbreviation in `text` that the table knows by its
/// expansion, leaving delimiters and unknown words untouched.
pub fn expand_abbreviations(text: &str, table: &AbbreviationTable) -> (r: String)
    ensures
        r@ == expanded_text(table.entries@, text@),
{
    let ghost entries = table.entries@;
    let mut result = String::new();
    let mut current_word = String::new();
    let n = text.unicode_len();
    let mut i: usize = 0;
    proof {
        assert(text@.skip(0) =~= text@);
        assert(Seq::<char>::empty() + expansion_rec(entries, text@, Seq::<char>::empty())
            =~= expansion_rec(entries, text@, Seq::<char>::empty()));
    }
    while i < n
        invariant
            n == text@.len(),
            0 <= i <= n,
            entries == table.entries@,
            expanded_text(entries, text@) == result@ + expansion_rec(
                entries,
                text@.skip(i as int),
                current_word@,
            ),
        decreases n - i,
    {
        let ghost pre_result = result@;
        let ghost pre_cur = current_word@;
        let ch = text.get_char(i);
        proof {
            assert(text@.skip(i as int)[0] == text@[i as int]);
            assert(text@.skip(i as int).drop_first() =~= text@.skip(i + 1));
        }
        if exec_is_word_char(ch) {
            push_char(&mut current_word, ch);
            proof {
                assert(expansion_rec(entries, text@.skip(i as int), pre_cur) == expansion_rec(
                    entries,
                    text@.skip(i + 1),
                    current_word@,
                ));
            }
        } else {
            if !current_word.as_str().is_empty() {
                match table.lookup(&current_word) {
                    Some(e) => result.append(e.as_str()),
                    None => result.append(current_word.as_str()),
                }
                current_word = String::new();
            }
            proof {
                assert(result@ =~= pre_result + expanded_word(entries, pre_cur));
            }
            push_char(&mut result, ch);
            proof {
                assert(current_word@ =~= Seq::<char>::empty());
                assert(result@ =~= pre_result + expanded_word(entries, pre_cur) + seq![ch]);
                assert(expansion_rec(entries, text@.skip(i as int), pre_cur) == expanded_word(
                    entries,
                    pre_cur,
                ) + seq![ch] + expansion_rec(entries, text@.skip(i + 1), Seq::<char>::empty()));
                assert(pre_result + expansion_rec(entries, text@.skip(i as int), pre_cur)
                    =~= result@ + expansion_rec(entries, text@.skip(i + 1), current_word@));
            }
        }
        i = i + 1;
    }
    let ghost pre_result = result@;
    let ghost pre_cur = current_word@;
    proof {
        assert(text@.skip(n as int) =~= Seq::<char>::empty());
        assert(expansion_rec(entries, text@.skip(n as int), pre_cur) == expanded_word(
            entries,
            pre_cur,
        ));
    }
    if !current_word.as_str().is_empty() {
        match table.lookup(&current_word) {
            Some(e) => result.append(e.as_str()),
            None => result.append(current_word.as_str()),
        }
    }
    proof {
        assert(result@ =~= pre_result + expanded_word(entries, pre_cur));
    }
    result
}

} // verus!
