//! Token text: pieces of source text joined by single spaces.

use vstd::prelude::*;

verus! {

/// `left` followed by `right`, with one space between them when neither is
/// empty. The empty text is neutral on both sides.
pub open spec fn spaced(left: Seq<char>, right: Seq<char>) -> Seq<char> {
    if left.len() == 0 {
        right
    } else if right.len() == 0 {
        left
    } else {
        left + seq![' '] + right
    }
}

/// All of `pieces` joined by `spaced`, first to last.
pub open spec fn spaced_all(pieces: Seq<Seq<char>>) -> Seq<char>
    decreases pieces.len(),
{
    if pieces.len() == 0 {
        Seq::empty()
    } else {
        spaced(spaced_all(pieces.drop_last()), pieces.last())
    }
}

/// All of `pieces` in order, with `separator` between each two.
pub open spec fn separated(pieces: Seq<Seq<char>>, separator: Seq<char>) -> Seq<char>
    decreases pieces.len(),
{
    if pieces.len() == 0 {
        Seq::empty()
    } else if pieces.len() == 1 {
        pieces[0]
    } else {
        spaced(spaced(separated(pieces.drop_last(), separator), separator), pieces.last())
    }
}

/// Appends `piece` to `out`, separated by a space when both hold text.
pub fn push_spaced(out: &mut String, piece: &str)
    ensures
        final(out)@ == spaced(old(out)@, piece@),
{
    if piece.is_empty() {
        return;
    }
    if !out.as_str().is_empty() {
        out.append(" ");
        proof {
            reveal_strlit(" ");
            assert(" "@ =~= seq![' ']);
        }
    }
    out.append(piece);
    assert(out@ =~= spaced(old(out)@, piece@));
}

/// The texts that `write` gives for `items`, in order, joined by single
/// spaces; `written` says what `write` gives.
pub(crate) fn join_spaced<T: DeepView, F: Fn(&T) -> String>(
    items: &Vec<T>,
    write: F,
    Ghost(written): Ghost<spec_fn(T::V) -> Seq<char>>,
) -> (text: String)
    requires
        forall|item: &T| #[trigger] write.requires((item,)),
        forall|item: &T, out: String|
            #[trigger] write.ensures((item,), out) ==> out@ == written(item.deep_view()),
    ensures
        text@ == spaced_all(items.deep_view().map_values(written)),
{
    let mut text = String::new();
    let mut i: usize = 0;
    while i < items.len()
        invariant
            i <= items.len(),
            forall|item: &T| #[trigger] write.requires((item,)),
            forall|item: &T, out: String|
                #[trigger] write.ensures((item,), out) ==> out@ == written(item.deep_view()),
            text@ == spaced_all(items.deep_view().take(i as int).map_values(written)),
        decreases items.len() - i,
    {
        let one = write(&items[i]);
        push_spaced(&mut text, one.as_str());
        proof {
            let all = items.deep_view();
            assert(all.take(i + 1).map_values(written).drop_last() =~= all.take(
                i as int,
            ).map_values(written));
        }
        i = i + 1;
    }
    assert(items.deep_view().take(i as int) =~= items.deep_view());
    text
}

/// `inner` between `open` and `close`, with nothing in between.
pub open spec fn enclosed(open: Seq<char>, inner: Seq<char>, close: Seq<char>) -> Seq<char> {
    open + inner + close
}

/// Builds `open`, `inner`, `close` in one text without separating spaces.
pub fn enclose(open: &str, inner: &str, close: &str) -> (out: String)
    ensures
        out@ == enclosed(open@, inner@, close@),
{
    let mut out = String::new();
    out.append(open);
    out.append(inner);
    out.append(close);
    assert(out@ =~= enclosed(open@, inner@, close@));
    out
}

} // verus!
