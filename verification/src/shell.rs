//! Words for a shell to read.

use crate::text::{chars_of, concat3};
use vstd::prelude::*;
use vstd::string::*;

verus! {

/// `c` between single quotes. A single quote cannot stand there: the quotes end, it follows in
/// double quotes, and single quotes begin again.
pub open spec fn escaped_char(c: char) -> Seq<char> {
    if c == '\'' {
        "'\"'\"'"@
    } else {
        seq![c]
    }
}

/// `value` between single quotes.
pub open spec fn escaped(value: Seq<char>) -> Seq<char>
    decreases value.len(),
{
    if value.len() == 0 {
        Seq::empty()
    } else {
        escaped(value.drop_last()) + escaped_char(value.last())
    }
}

/// The word that a shell reads as `value`.
pub open spec fn quoted(value: Seq<char>) -> Seq<char> {
    "'"@ + escaped(value) + "'"@
}

/// The word that a shell reads as `value`.
pub fn shell_quote(value: &str) -> (word: String)
    ensures
        word@ == quoted(value@),
{
    let chars = chars_of(value);
    let mut text = String::new();
    let mut i: usize = 0;
    proof {
        assert(value@.take(0) =~= Seq::<char>::empty());
    }
    while i < chars.len()
        invariant
            i <= chars@.len(),
            chars@ == value@,
            text@ == escaped(value@.take(i as int)),
        decreases chars@.len() - i,
    {
        proof {
            assert(value@.take(i + 1).drop_last() =~= value@.take(i as int));
            assert(value@.take(i + 1).last() == chars@[i as int]);
        }
        if chars[i] == '\'' {
            text.append("'\"'\"'");
        } else {
            let ghost before = text@;
            text.push(chars[i]);
            proof {
                assert(text@ =~= before + seq![chars@[i as int]]);
            }
        }
        i = i + 1;
    }
    proof {
        assert(value@.take(i as int) =~= value@);
    }
    concat3("'", text.as_str(), "'")
}

/// Between which quotes a shell reads.
pub enum Quotes {
    Outside,
    Single,
    Double,
}

/// What a POSIX shell makes of `word`, from a place between `quotes` on. Single quotes keep
/// every character, double quotes every one but the dollar sign, the backquote and the
/// backslash. Of a word with such a character, or with a character outside of quotes, nothing
/// is said.
pub open spec fn shell_reads(word: Seq<char>, quotes: Quotes) -> Option<Seq<char>>
    decreases word.len(),
{
    if word.len() == 0 {
        match quotes {
            Quotes::Outside => Some(Seq::empty()),
            _ => None,
        }
    } else {
        let c = word.first();
        let rest = word.drop_first();
        match quotes {
            Quotes::Outside => if c == '\'' {
                shell_reads(rest, Quotes::Single)
            } else if c == '"' {
                shell_reads(rest, Quotes::Double)
            } else {
                None
            },
            Quotes::Single => if c == '\'' {
                shell_reads(rest, Quotes::Outside)
            } else {
                match shell_reads(rest, Quotes::Single) {
                    Some(value) => Some(seq![c] + value),
                    None => None,
                }
            },
            Quotes::Double => if c == '"' {
                shell_reads(rest, Quotes::Outside)
            } else if c == '$' || c == '`' || c == '\\' {
                None
            } else {
                match shell_reads(rest, Quotes::Double) {
                    Some(value) => Some(seq![c] + value),
                    None => None,
                }
            },
        }
    }
}

/// A text between quotes begins with its first character.
proof fn lemma_escaped_first(value: Seq<char>)
    requires
        value.len() > 0,
    ensures
        escaped(value) == escaped_char(value.first()) + escaped(value.drop_first()),
    decreases value.len(),
{
    if value.len() == 1 {
        assert(value.drop_last() =~= Seq::<char>::empty());
        assert(value.drop_first() =~= Seq::<char>::empty());
        assert(escaped(value.drop_last()) == Seq::<char>::empty());
        assert(escaped(value) =~= escaped_char(value.first()) + escaped(value.drop_first()));
    } else {
        lemma_escaped_first(value.drop_last());
        assert(value.drop_last().drop_first() =~= value.drop_first().drop_last());
        assert(escaped(value) =~= escaped_char(value.first()) + (escaped(
            value.drop_first().drop_last(),
        ) + escaped_char(value.last())));
    }
}

/// What stands between the quotes of a word is read as the value.
proof fn lemma_single_quotes(value: Seq<char>)
    ensures
        shell_reads(escaped(value) + "'"@, Quotes::Single) == Some(value),
    decreases value.len(),
{
    reveal_strlit("'");
    reveal_strlit("'\"'\"'");
    let word = escaped(value) + "'"@;
    if value.len() == 0 {
        assert(word =~= seq!['\'']);
        assert(word.drop_first() =~= Seq::<char>::empty());
        assert(shell_reads(word.drop_first(), Quotes::Outside) == Some(Seq::<char>::empty()));
        assert(value =~= Seq::<char>::empty());
    } else {
        lemma_escaped_first(value);
        lemma_single_quotes(value.drop_first());
        let rest = escaped(value.drop_first()) + "'"@;
        assert(word =~= escaped_char(value.first()) + rest);
        assert(value =~= seq![value.first()] + value.drop_first());
        if value.first() == '\'' {
            let w1 = word.drop_first();
            let w2 = w1.drop_first();
            let w3 = w2.drop_first();
            let w4 = w3.drop_first();
            assert(w4.drop_first() =~= rest);
            assert(w1.first() == '"' && w2.first() == '\'' && w3.first() == '"' && w4.first()
                == '\'');
            assert(shell_reads(w4, Quotes::Outside) == shell_reads(rest, Quotes::Single));
            assert(shell_reads(w3, Quotes::Double) == shell_reads(w4, Quotes::Outside));
            assert(shell_reads(w2, Quotes::Double) == Some(seq!['\''] + value.drop_first()));
            assert(shell_reads(w1, Quotes::Outside) == shell_reads(w2, Quotes::Double));
        } else {
            assert(word.drop_first() =~= rest);
        }
    }
}

/// A shell reads a quoted value as the value, whatever it holds.
pub proof fn shell_reads_quoted(value: Seq<char>)
    ensures
        shell_reads(quoted(value), Quotes::Outside) == Some(value),
{
    reveal_strlit("'");
    lemma_single_quotes(value);
    assert(quoted(value).drop_first() =~= escaped(value) + "'"@);
}

/// A value without a single quote stands as it is between single quotes; each single quote in it
/// is written as the end of the quotes, a quote in double quotes, and their beginning again.
pub proof fn quotes_stand_around_values(value: Seq<char>, c: char)
    ensures
        quoted(value).len() >= 2,
        quoted(value).first() == '\'',
        quoted(value).last() == '\'',
        !value.contains('\'') ==> quoted(value) == seq!['\''] + value + seq!['\''],
        c != '\'' ==> escaped(value.push(c)) == escaped(value).push(c),
        escaped(value.push('\'')) == escaped(value) + "'\"'\"'"@,
{
    reveal_strlit("'");
    assert("'"@ =~= seq!['\'']);
    if !value.contains('\'') {
        lemma_escaped_plain(value);
    }
    assert(value.push(c).drop_last() =~= value);
    assert(value.push('\'').drop_last() =~= value);
    assert(escaped(value) + seq![c] =~= escaped(value).push(c));
}

/// A value without a single quote is not changed between the quotes.
proof fn lemma_escaped_plain(value: Seq<char>)
    requires
        !value.contains('\''),
    ensures
        escaped(value) == value,
    decreases value.len(),
{
    if value.len() == 0 {
        assert(value =~= Seq::<char>::empty());
    } else {
        assert(value.contains(value.last()));
        assert forall|i: int| 0 <= i < value.len() - 1 implies value.drop_last()[i] != '\'' by {
            assert(value.contains(value[i]));
        }
        lemma_escaped_plain(value.drop_last());
        assert(value.drop_last() + seq![value.last()] =~= value);
    }
}

} // verus!
