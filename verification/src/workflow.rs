//! What is put before the user for confirmation.

use vstd::prelude::*;

verus! {

/// A screen with a title and a body, which the user accepts or rejects.
#[derive(Clone, Debug, PartialEq, Eq)]
pub struct ConfirmParams {
    pub title: String,
    pub body: String,
    /// The body may be longer than the screen.
    pub scrollable: bool,
    /// The accept button is drawn as an arrow to the next screen.
    pub accept_is_nextarrow: bool,
    /// How much of a scrollable body there is to show, where that is not
    /// the length of its text; zero otherwise.
    pub display_size: usize,
}

/// One confirmation that the user is asked for.
#[derive(Clone, Debug, PartialEq, Eq)]
pub enum Prompt {
    /// A warning or a text.
    Confirm(ConfirmParams),
    /// The recipient and the amount sent.
    Recipient { address: String, amount: String },
    /// The total and the fee.
    TotalFee { total: String, fee: String },
}

/// What a confirmation screen holds, as mathematical values.
pub struct ConfirmParamsView {
    pub title: Seq<char>,
    pub body: Seq<char>,
    pub scrollable: bool,
    pub accept_is_nextarrow: bool,
    pub display_size: nat,
}

/// What a prompt holds, as mathematical values.
pub enum PromptView {
    Confirm(ConfirmParamsView),
    Recipient { address: Seq<char>, amount: Seq<char> },
    TotalFee { total: Seq<char>, fee: Seq<char> },
}

impl View for ConfirmParams {
    type V = ConfirmParamsView;

    open spec fn view(&self) -> ConfirmParamsView {
        ConfirmParamsView {
            title: self.title@,
            body: self.body@,
            scrollable: self.scrollable,
            accept_is_nextarrow: self.accept_is_nextarrow,
            display_size: self.display_size as nat,
        }
    }
}

impl View for Prompt {
    type V = PromptView;

    open spec fn view(&self) -> PromptView {
        match self {
            Prompt::Confirm(params) => PromptView::Confirm(params@),
            Prompt::Recipient { address, amount } => PromptView::Recipient {
                address: address@,
                amount: amount@,
            },
            Prompt::TotalFee { total, fee } => PromptView::TotalFee { total: total@, fee: fee@ },
        }
    }
}

/// The views of a sequence of prompts, in the same order.
pub open spec fn prompt_views(prompts: Seq<Prompt>) -> Seq<PromptView> {
    prompts.map_values(|p: Prompt| p@)
}

} // verus!
