//! What holds of the store as a whole, as far as it lies with this crate.
//!
//! What the database holds after a statement is for the engine to say, and
//! nothing here speaks of it. These laws are about the two sides that this
//! crate has of every exchange: what it binds and what it reads, what it
//! sends and what it makes of the answer.

use vstd::prelude::*;
use crate::error::{RowError, StoreError};
use crate::json::{json_steps, json_text};
use crate::record::{Message, MessageView, Plan, WORKSPACE_ID};
use crate::row::{int32_at, message_of_row, rows_give};
use crate::statement::StatementView;
use crate::store::{gets_plan, lists_messages, saves_plan, Exchange};
use crate::value::{SqlParamView, SqlValueView};

verus! {

/// The row of a chat turn as the insertion of `message` fills it: an id,
/// then the values that the insertion binds, in their order, then a time
/// stamp.
pub open spec fn appended_row(message: MessageView, id: int, created_at: Seq<char>) -> Seq<
    SqlValueView,
> {
    seq![SqlValueView::Integer(id)] + StatementView::insert_message(message).params.map_values(
        |p: SqlParamView| p.as_value(),
    ) + seq![SqlValueView::Text(created_at)]
}

/// A row that holds an id, then the values that the insertion of `message`
/// binds, in their order, then a time stamp, is read as the chat turn with
/// that id and time stamp and with the workspace, the sender and the text of
/// `message`: the columns are read in the order in which they are written.
pub proof fn lemma_bound_values_read_back(message: MessageView, id: int, created_at: Seq<char>)
    requires
        i32::MIN <= id <= i32::MAX,
        i32::MIN <= message.workspace_id <= i32::MAX,
    ensures
        message_of_row(appended_row(message, id, created_at)) == Ok::<MessageView, RowError>(
            MessageView {
                id,
                workspace_id: message.workspace_id,
                sender: message.sender,
                text: message.text,
                created_at,
            },
        ),
{
}

/// The listing after an append, as far as it lies with the reading: where
/// the engine yields the rows of an earlier listing with one row before
/// them, filled as the insertion of `message` fills it, the chat turns are
/// those of the earlier listing, unchanged and in their order, with one chat
/// turn before them that has the workspace, the sender and the text of
/// `message` and the id and the time stamp of the new row.
pub proof fn lemma_listing_after_append(
    earlier_rows: Seq<Seq<SqlValueView>>,
    earlier: Seq<MessageView>,
    message: MessageView,
    id: int,
    created_at: Seq<char>,
    later: Seq<MessageView>,
)
    requires
        i32::MIN <= id <= i32::MAX,
        i32::MIN <= message.workspace_id <= i32::MAX,
        rows_give(earlier_rows, earlier),
        rows_give(seq![appended_row(message, id, created_at)] + earlier_rows, later),
    ensures
        later.len() == earlier.len() + 1,
        later[0] == (MessageView {
            id,
            workspace_id: message.workspace_id,
            sender: message.sender,
            text: message.text,
            created_at,
        }),
        later.skip(1) == earlier,
{
    let rows = seq![appended_row(message, id, created_at)] + earlier_rows;
    lemma_bound_values_read_back(message, id, created_at);
    assert(rows[0] == appended_row(message, id, created_at));
    assert forall|i: int| 0 <= i < earlier.len() implies later.skip(1)[i] == earlier[i] by {
        assert(rows[i + 1] == earlier_rows[i]);
    }
}

/// Reading a listing keeps the ids of its rows and their order: where the
/// rows come with strictly descending ids, the chat turns have strictly
/// descending ids.
pub proof fn lemma_listing_keeps_descending_ids(
    rows: Seq<Seq<SqlValueView>>,
    messages: Seq<MessageView>,
)
    requires
        rows_give(rows, messages),
        forall|i: int, j: int|
            0 <= i < j < rows.len() ==> int32_at(#[trigger] rows[i], 0)->Ok_0 > int32_at(
                #[trigger] rows[j],
                0,
            )->Ok_0,
    ensures
        forall|i: int, j: int|
            0 <= i < j < messages.len() ==> (#[trigger] messages[i]).id > (
            #[trigger] messages[j]).id,
{
    assert forall|i: int, j: int| 0 <= i < j < messages.len() implies (#[trigger] messages[i]).id
        > (#[trigger] messages[j]).id by {
        assert(message_of_row(rows[i]) == Ok::<MessageView, RowError>(messages[i]));
        assert(message_of_row(rows[j]) == Ok::<MessageView, RowError>(messages[j]));
    }
}

/// A listing that yields no row gives no chat turn.
pub proof fn lemma_empty_listing(by: Seq<Exchange>, r: Result<Vec<Message>, StoreError>)
    requires
        lists_messages(by, r),
        by[0] matches Exchange::Queried { answer: Ok(rows), .. } && rows.len() == 0,
    ensures
        r matches Ok(messages) && messages@.len() == 0,
{
}

/// Reading the plan of a workspace that has none gives it the empty plan:
/// where the query yields no row, the empty plan is sent to be written as
/// [`crate::store::save_plan`] writes it, and it is returned exactly where
/// that succeeded.
pub proof fn lemma_missing_plan_is_written(by: Seq<Exchange>, r: Result<Plan, StoreError>)
    requires
        gets_plan(by, r),
        by[0] matches Exchange::Queried { answer: Ok(rows), .. } && rows.len() == 0,
    ensures
        match r {
            Ok(plan) => {
                &&& plan@ == Seq::<Seq<char>>::empty()
                &&& saves_plan(by.skip(1), WORKSPACE_ID as int, Seq::empty(), Ok(()))
            },
            Err(e) => saves_plan(by.skip(1), WORKSPACE_ID as int, Seq::empty(), Err(e)),
        },
        json_text(Seq::empty()) is Some ==> {
            &&& by.len() == 2
            &&& by[1] matches Exchange::Executed { statement, outcome }
            &&& statement == StatementView::upsert_plan(
                WORKSPACE_ID as int,
                json_text(Seq::empty())->0,
            )
            &&& r is Ok <==> outcome is Ok
        },
{
}

/// Reading back a plan that was written: where the query for the plan yields
/// a row whose first column holds the text that was sent for `plan`, the
/// plan that is returned has the steps that the decoder reads from what the
/// encoder wrote for `plan`, and nothing is written.
pub proof fn lemma_written_plan_is_decoded(
    plan: Seq<Seq<char>>,
    written: Seq<Exchange>,
    read: Seq<Exchange>,
    r: Result<Plan, StoreError>,
)
    requires
        saves_plan(written, WORKSPACE_ID as int, plan, Ok(())),
        gets_plan(read, r),
        ({
            &&& written[0] matches Exchange::Executed { statement, .. }
            &&& read[0] matches Exchange::Queried { answer: Ok(rows), .. }
            &&& rows.len() > 0
            &&& rows[0].len() > 0
            &&& rows[0][0] == statement.params[1].as_value()
        }),
    ensures
        read.len() == 1,
        json_text(plan) matches Some(text) && match json_steps(text) {
            Some(steps) => r matches Ok(found) && found@ == steps,
            None => r matches Err(e) && e is Decode,
        },
{
}

} // verus!
