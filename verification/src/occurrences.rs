//! Counting the places at which a pattern stands in a text.

use vstd::prelude::*;

verus! {

/// Whether `text` ends with `pattern`.
pub open spec fn ends_with(text: Seq<char>, pattern: Seq<char>) -> bool {
    pattern.len() <= text.len() && text.subrange(text.len() - pattern.len(), text.len() as int)
        == pattern
}

/// At how many places `pattern` stands in `text`: the number of prefixes of
/// `text` that end with it.
pub open spec fn occurrences(text: Seq<char>, pattern: Seq<char>) -> nat
    decreases text.len(),
{
    if text.len() == 0 {
        0
    } else {
        occurrences(text.drop_last(), pattern) + if ends_with(text, pattern) {
            1nat
        } else {
            0nat
        }
    }
}

/// Whether `c` stands nowhere in `text`.
pub open spec fn free_of(text: Seq<char>, c: char) -> bool {
    forall|i: int| 0 <= i < text.len() ==> text[i] != c
}

/// Whether neither `<` nor `>` stands in `text`.
pub open spec fn plain(text: Seq<char>) -> bool {
    free_of(text, '<') && free_of(text, '>')
}

/// `<`, `name` and `>`.
pub open spec fn tag(name: Seq<char>) -> Seq<char> {
    seq!['<'] + name + seq!['>']
}

/// Two texts of which neither holds `c`, one after the other, do not hold
/// it.
pub proof fn lemma_free_of_concat(a: Seq<char>, b: Seq<char>, c: char)
    requires
        free_of(a, c),
        free_of(b, c),
    ensures
        free_of(a + b, c),
{
    assert forall|i: int| 0 <= i < (a + b).len() implies (a + b)[i] != c by {
        if i < a.len() {
            assert((a + b)[i] == a[i]);
        } else {
            assert((a + b)[i] == b[i - a.len()]);
        }
    }
}

/// Two plain texts, one after the other, are plain.
pub proof fn lemma_plain_concat(a: Seq<char>, b: Seq<char>)
    requires
        plain(a),
        plain(b),
    ensures
        plain(a + b),
{
    lemma_free_of_concat(a, b, '<');
    lemma_free_of_concat(a, b, '>');
}

/// A piece without the last character of the pattern adds no place at which
/// the pattern stands.
pub proof fn lemma_piece_without_end(text: Seq<char>, piece: Seq<char>, pattern: Seq<char>)
    requires
        pattern.len() > 0,
        free_of(piece, pattern.last()),
    ensures
        occurrences(text + piece, pattern) == occurrences(text, pattern),
    decreases piece.len(),
{
    if piece.len() == 0 {
        assert(text + piece =~= text);
    } else {
        let whole = text + piece;
        assert(free_of(piece.drop_last(), pattern.last())) by {
            assert forall|i: int| 0 <= i < piece.drop_last().len() implies piece.drop_last()[i]
                != pattern.last() by {
                assert(piece.drop_last()[i] == piece[i]);
            }
        }
        lemma_piece_without_end(text, piece.drop_last(), pattern);
        assert(whole.drop_last() =~= text + piece.drop_last());
        if ends_with(whole, pattern) {
            let window = whole.subrange(whole.len() - pattern.len(), whole.len() as int);
            assert(window[pattern.len() - 1] == whole[whole.len() - 1]);
            assert(whole[whole.len() - 1] == piece[piece.len() - 1]);
            assert(false);
        }
    }
}

/// A tag after a text adds one place at which the tag called `name` stands
/// where it is that tag, and none where it is another.
pub proof fn lemma_tag_piece(text: Seq<char>, body: Seq<char>, name: Seq<char>)
    requires
        plain(body),
        plain(name),
    ensures
        occurrences(text + tag(body), tag(name)) == occurrences(text, tag(name)) + if body == name {
            1nat
        } else {
            0nat
        },
{
    let pattern = tag(name);
    let piece = tag(body);
    let whole = text + piece;
    let open = seq!['<'] + body;
    assert(pattern.last() == '>');
    assert(free_of(open, '>')) by {
        assert forall|i: int| 0 <= i < open.len() implies open[i] != '>' by {
            if i > 0 {
                assert(open[i] == body[i - 1]);
            }
        }
    }
    lemma_piece_without_end(text, open, pattern);
    assert(whole.drop_last() =~= text + open);
    let n = name.len() as int;
    let b = body.len() as int;
    let len = whole.len() as int;
    if body == name {
        assert(whole.subrange(len - pattern.len(), len) =~= pattern);
        assert(ends_with(whole, pattern));
    } else if ends_with(whole, pattern) {
        let window = whole.subrange(len - (n + 2), len);
        assert(window[0] == '<');
        assert(whole[len - n - 2] == '<');
        if n < b {
            assert(whole[len - n - 2] == piece[b - n]);
            assert(piece[b - n] == body[b - n - 1]);
            assert(false);
        } else if n > b {
            assert(window[n - b] == whole[len - b - 2]);
            assert(whole[len - b - 2] == piece[0]);
            assert(pattern[n - b] == name[n - b - 1]);
            assert(false);
        } else {
            assert forall|i: int| 0 <= i < n implies body[i] == name[i] by {
                assert(window[i + 1] == whole[len - n - 2 + i + 1]);
                assert(whole[len - n - 2 + i + 1] == piece[i + 1]);
                assert(piece[i + 1] == body[i]);
                assert(pattern[i + 1] == name[i]);
            }
            assert(body =~= name);
            assert(false);
        }
    }
}

} // verus!
