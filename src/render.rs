//! Rendering a message as one line of text.

use vstd::prelude::*;
use crate::log::{Log, Level, label_of, content_of, level_of};

verus! {

/// The plain form of a message: `"<timestamp> <LABEL> <message>\n"`.
pub open spec fn line_spec(timestamp: Seq<char>, entry: Log) -> Seq<char> {
    timestamp + seq![' '] + label_of(entry) + seq![' '] + content_of(entry) + seq!['\n']
}

/// The number of line breaks in `s`.
pub open spec fn newlines(s: Seq<char>) -> nat
    decreases s.len(),
{
    if s.len() == 0 {
        0
    } else {
        newlines(s.drop_last()) + if s.last() == '\n' { 1nat } else { 0nat }
    }
}

/// Renders the plain form of `entry`, stamped with `timestamp`. The console
/// shows the same text, colored.
pub fn render(timestamp: &str, entry: &Log) -> (r: String)
    ensures
        r@ == line_spec(timestamp@, *entry),
{
    let mut r = String::from_str(timestamp);
    r.append(" ");
    r.append(entry.get_level());
    r.append(" ");
    r.append(entry.content());
    r.append("\n");
    proof {
        reveal_strlit(" ");
        reveal_strlit("\n");
        assert(r@ =~= line_spec(timestamp@, *entry));
    }
    r
}

/// Line breaks in a concatenation add up.
pub proof fn lemma_newlines_concat(a: Seq<char>, b: Seq<char>)
    ensures
        newlines(a + b) == newlines(a) + newlines(b),
    decreases b.len(),
{
    if b.len() == 0 {
        assert(a + b =~= a);
    } else {
        assert((a + b).drop_last() =~= a + b.drop_last());
        lemma_newlines_concat(a, b.drop_last());
    }
}

/// A text without `'\n'` has no line breaks.
pub proof fn lemma_no_newlines(s: Seq<char>)
    requires
        !s.contains('\n'),
    ensures
        newlines(s) == 0,
    decreases s.len(),
{
    if s.len() > 0 {
        assert(!s.drop_last().contains('\n')) by {
            if s.drop_last().contains('\n') {
                let i = choose|i: int| 0 <= i < s.drop_last().len() && s.drop_last()[i] == '\n';
                assert(s[i] == '\n');
            }
        }
        assert(s.contains(s.last()) ==> s.last() != '\n');
        assert(s[s.len() - 1] == s.last());
        lemma_no_newlines(s.drop_last());
    }
}

/// The name of a built-in level holds no line break.
pub proof fn lemma_builtin_label_single_line(entry: Log)
    requires
        level_of(entry) != Level::Custom,
    ensures
        !label_of(entry).contains('\n'),
{
    reveal_strlit("TRACE");
    reveal_strlit("DEBUG");
    reveal_strlit("INFO");
    reveal_strlit("WARN");
    reveal_strlit("ERROR");
}

/// A rendered line ends with its one line break, provided the timestamp,
/// the label and the message hold none, and it reads timestamp, label and
/// message in that order, separated by single spaces.
pub proof fn lemma_rendered_line_shape(timestamp: Seq<char>, entry: Log)
    requires
        !timestamp.contains('\n'),
        !label_of(entry).contains('\n'),
        !content_of(entry).contains('\n'),
    ensures
        line_spec(timestamp, entry).last() == '\n',
        newlines(line_spec(timestamp, entry)) == 1,
        line_spec(timestamp, entry).subrange(0, timestamp.len() as int) == timestamp,
        line_spec(timestamp, entry).subrange(
            timestamp.len() as int + 1,
            timestamp.len() as int + 1 + label_of(entry).len(),
        ) == label_of(entry),
        line_spec(timestamp, entry).subrange(
            timestamp.len() as int + 2 + label_of(entry).len(),
            line_spec(timestamp, entry).len() - 1,
        ) == content_of(entry),
{
    let t = timestamp;
    let l = label_of(entry);
    let c = content_of(entry);
    let sp = seq![' '];
    let nl = seq!['\n'];
    lemma_no_newlines(t);
    lemma_no_newlines(l);
    lemma_no_newlines(c);
    assert(!sp.contains('\n')) by {
        assert(sp[0] == ' ');
    }
    lemma_no_newlines(sp);
    assert(nl.drop_last() =~= Seq::<char>::empty());
    assert(nl.last() == '\n');
    assert(newlines(nl.drop_last()) == 0);
    assert(newlines(nl) == 1);
    lemma_newlines_concat(t, sp);
    lemma_newlines_concat(t + sp, l);
    lemma_newlines_concat(t + sp + l, sp);
    lemma_newlines_concat(t + sp + l + sp, c);
    lemma_newlines_concat(t + sp + l + sp + c, nl);
    let line = line_spec(timestamp, entry);
    assert(line.subrange(0, t.len() as int) =~= t);
    assert(line.subrange(t.len() as int + 1, t.len() as int + 1 + l.len()) =~= l);
    assert(line.subrange(t.len() as int + 2 + l.len(), line.len() - 1) =~= c);
}

} // verus!
