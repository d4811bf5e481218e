use vstd::prelude::*;
use crate::chat::{Chat, ChatMessage, MessageView};

verus! {

/// A message as the `messages` table stores it: the id as a signed integer.
pub struct MessageRow {
    pub id: i64,
    pub chat_id: u128,
    pub content: String,
    pub is_reply: bool,
}

/// The mathematical model of a `MessageRow`.
pub struct RowView {
    pub id: i64,
    pub chat_id: u128,
    pub content: Seq<char>,
    pub is_reply: bool,
}

impl View for MessageRow {
    type V = RowView;

    open spec fn view(&self) -> RowView {
        RowView { id: self.id, chat_id: self.chat_id, content: self.content@, is_reply: self.is_reply }
    }
}

/// A chat as the `chats` table stores it: its identifier and title.
pub struct ChatRow {
    pub id: u128,
    pub title: String,
}

/// The row that stores a message: its id written as an `i64` (`id as i64`).
pub open spec fn row_of(m: MessageView) -> RowView {
    RowView { id: m.id as i64, chat_id: m.chat_id, content: m.content, is_reply: m.is_reply }
}

/// The message that a stored row gives back: its id read as a `usize` (`id as usize`).
pub open spec fn message_of(r: RowView) -> MessageView {
    MessageView { id: r.id as usize, chat_id: r.chat_id, content: r.content, is_reply: r.is_reply }
}

/// The row that stores a message.
pub fn message_row(m: &ChatMessage) -> (r: MessageRow)
    ensures
        r@ == row_of(m@),
{
    MessageRow { id: m.id as i64, chat_id: m.chat_id, content: m.content.clone(), is_reply: m.is_reply }
}

/// The message that a stored row gives back.
pub fn message_from_row(r: MessageRow) -> (m: ChatMessage)
    ensures
        m@ == message_of(r@),
{
    ChatMessage { id: r.id as usize, chat_id: r.chat_id, content: r.content, is_reply: r.is_reply }
}

/// The row that stores a chat.
pub fn chat_row(c: &Chat) -> (r: ChatRow)
    ensures
        r.id == c.id,
        r.title@ == c.title@,
{
    ChatRow { id: c.id, title: c.title.clone() }
}

/// The values of the rows that could be read, in order; the rows that could not
/// are left out.
pub open spec fn kept<T, E>(rows: Seq<Result<T, E>>) -> Seq<T>
    decreases rows.len(),
{
    if rows.len() == 0 {
        Seq::empty()
    } else {
        let rest = kept(rows.drop_last());
        match rows.last() {
            Ok(v) => rest.push(v),
            Err(_) => rest,
        }
    }
}

/// Keeps the rows that could be read, in order.
pub fn keep_read<T, E>(rows: Vec<Result<T, E>>) -> (res: Vec<T>)
    ensures
        res@ == kept(rows@),
{
    let ghost all = rows@;
    let mut rows = rows;
    let mut rest: Vec<Result<T, E>> = Vec::new();
    // Take the rows from the back, then put the kept ones back in order.
    while rows.len() > 0
        invariant
            all == rows@ + rest@.reverse(),
        decreases rows@.len(),
    {
        let r = rows.pop().unwrap();
        let ghost before = rest@;
        rest.push(r);
        assert(rest@.reverse() =~= seq![r] + before.reverse());
    }
    assert(rest@.reverse() =~= all);
    let mut res: Vec<T> = Vec::new();
    let ghost n = all.len();
    while rest.len() > 0
        invariant
            n == all.len(),
            rest@.len() <= n,
            rest@.reverse() =~= all.skip(n - rest@.len()),
            res@ == kept(all.take(n - rest@.len())),
        decreases rest@.len(),
    {
        let ghost k = n - rest@.len();
        let ghost old_rest = rest@;
        assert(old_rest.reverse()[0] == old_rest[old_rest.len() - 1]);
        assert(all.skip(k)[0] == all[k]);
        let r = rest.pop().unwrap();
        assert(r == all[k]);
        assert(rest@ =~= old_rest.drop_last());
        assert(rest@.reverse() =~= all.skip(k + 1)) by {
            assert forall|j: int| 0 <= j < rest@.len() implies rest@.reverse()[j] == all.skip(k + 1)[j] by {
                assert(rest@.reverse()[j] == old_rest.reverse()[j + 1]);
            }
        }
        assert(all.take(k + 1).drop_last() =~= all.take(k));
        assert(all.take(k + 1).last() == r);
        match r {
            Ok(v) => {
                res.push(v);
            },
            Err(_) => {},
        }
    }
    assert(all.take(n as int) =~= all);
    res
}

} // verus!

verus! {

/// A stored message reads back as the message that was stored.
pub proof fn law_row_round_trip(m: MessageView)
    ensures
        message_of(row_of(m)) == m,
{
    let x: usize = m.id;
    assert((x as i64) as usize == x) by (bit_vector);
}

} // verus!

verus! {

/// Reading keeps every readable row, in order, and only those: nothing from no
/// rows, a readable row adds its value at the end, an unreadable one adds nothing.
pub proof fn law_kept_keeps_every_readable_row<T, E>(rows: Seq<Result<T, E>>, v: T, e: E)
    ensures
        kept(Seq::<Result<T, E>>::empty()) == Seq::<T>::empty(),
        kept(rows.push(Ok(v))) == kept(rows).push(v),
        kept(rows.push(Err(e))) == kept(rows),
{
    assert(rows.push(Ok(v)).drop_last() =~= rows);
    assert(rows.push(Err(e)).drop_last() =~= rows);
}

/// When every row is readable, all of their values are kept, in order.
pub proof fn law_all_readable_rows_are_kept<T, E>(values: Seq<T>)
    ensures
        kept(values.map_values(|v: T| Ok::<T, E>(v))) == values,
    decreases values.len(),
{
    let rows = values.map_values(|v: T| Ok::<T, E>(v));
    if values.len() > 0 {
        assert(rows.drop_last() =~= values.drop_last().map_values(|v: T| Ok::<T, E>(v)));
        law_all_readable_rows_are_kept::<T, E>(values.drop_last());
        assert(values.drop_last().push(values.last()) =~= values);
    } else {
        assert(rows =~= Seq::<Result<T, E>>::empty());
        assert(values =~= Seq::<T>::empty());
    }
}

} // verus!

verus! {

/// A message is stored as itself: the row holds its chat, its text and whether it
/// is a reply, and its id unchanged whenever the id fits the signed column.
pub proof fn law_row_holds_the_message(m: MessageView)
    ensures
        row_of(m).chat_id == m.chat_id,
        row_of(m).content == m.content,
        row_of(m).is_reply == m.is_reply,
        m.id <= i64::MAX ==> row_of(m).id == m.id,
{
}

} // verus!
