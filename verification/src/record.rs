//! The two records that the store keeps, and their mathematical views.

use vstd::prelude::*;

verus! {

/// The single workspace that every operation of this version addresses.
pub const WORKSPACE_ID: i32 = 1;

/// The task plan of a workspace: its steps in the order of execution.
#[derive(Debug, PartialEq, Eq)]
pub struct Plan {
    pub steps: Vec<String>,
}

impl View for Plan {
    type V = Seq<Seq<char>>;

    /// A plan is the sequence of its steps, each step the sequence of its characters.
    open spec fn view(&self) -> Seq<Seq<char>> {
        self.steps.deep_view()
    }
}

impl Plan {
    /// The plan with no steps, which reading a workspace without a plan yields.
    pub fn empty() -> (plan: Plan)
        ensures
            plan@ == Seq::<Seq<char>>::empty(),
    {
        let plan = Plan { steps: Vec::new() };
        plan
    }
}

/// One chat turn as the store keeps it.
///
/// `id` and `created_at` are assigned by the store when the turn is appended;
/// what a caller puts there before appending is not written.
#[derive(Debug, PartialEq, Eq)]
pub struct Message {
    pub id: i32,
    pub workspace_id: i32,
    pub sender: String,
    pub text: String,
    pub created_at: String,
}

/// What a [`Message`] holds, as mathematical values.
pub struct MessageView {
    pub id: int,
    pub workspace_id: int,
    pub sender: Seq<char>,
    pub text: Seq<char>,
    pub created_at: Seq<char>,
}

impl DeepView for Message {
    type V = MessageView;

    open spec fn deep_view(&self) -> MessageView {
        self@
    }
}

impl View for Message {
    type V = MessageView;

    open spec fn view(&self) -> MessageView {
        MessageView {
            id: self.id as int,
            workspace_id: self.workspace_id as int,
            sender: self.sender@,
            text: self.text@,
            created_at: self.created_at@,
        }
    }
}

} // verus!
