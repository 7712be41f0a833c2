//! The inputs: the channel groups shared by all sources, Money Forward
//! exports, and Amazon order history exports.

pub mod amazon_ohfd;
pub mod common;
pub mod money_forward;

use vstd::prelude::*;

verus! {

/// One loader to run, with the file or directory it reads.
#[derive(Debug)]
pub enum LoadTask {
    /// The channel-group map (a YAML file).
    ChannelGroups(String),
    /// Money Forward transaction exports (the CSV files of a directory).
    MfTransactions(String),
    /// The financial-institution-to-channel map (a YAML file).
    MfInstitutionChannels(String),
    /// Manual categorizations of Money Forward transactions (a YAML file).
    MfManualCategorization(String),
    /// Categorization rules for Money Forward transactions (the YAML files of a directory).
    MfCategorizationRules(String),
    /// Amazon order history exports (the CSV files of a directory).
    AmazonOrders(String),
    /// The credit-card-to-channel map (a YAML file).
    AmazonCreditCardChannels(String),
    /// Manual categorizations of Amazon orders (a YAML file).
    AmazonManualCategorization(String),
    /// Categorization rules for Amazon orders (the YAML files of a directory).
    AmazonCategorizationRules(String),
}

pub enum LoadTaskView {
    ChannelGroups(Seq<char>),
    MfTransactions(Seq<char>),
    MfInstitutionChannels(Seq<char>),
    MfManualCategorization(Seq<char>),
    MfCategorizationRules(Seq<char>),
    AmazonOrders(Seq<char>),
    AmazonCreditCardChannels(Seq<char>),
    AmazonManualCategorization(Seq<char>),
    AmazonCategorizationRules(Seq<char>),
}

pub open spec fn task_view(t: LoadTask) -> LoadTaskView {
    match t {
        LoadTask::ChannelGroups(p) => LoadTaskView::ChannelGroups(p@),
        LoadTask::MfTransactions(p) => LoadTaskView::MfTransactions(p@),
        LoadTask::MfInstitutionChannels(p) => LoadTaskView::MfInstitutionChannels(p@),
        LoadTask::MfManualCategorization(p) => LoadTaskView::MfManualCategorization(p@),
        LoadTask::MfCategorizationRules(p) => LoadTaskView::MfCategorizationRules(p@),
        LoadTask::AmazonOrders(p) => LoadTaskView::AmazonOrders(p@),
        LoadTask::AmazonCreditCardChannels(p) => LoadTaskView::AmazonCreditCardChannels(p@),
        LoadTask::AmazonManualCategorization(p) => LoadTaskView::AmazonManualCategorization(p@),
        LoadTask::AmazonCategorizationRules(p) => LoadTaskView::AmazonCategorizationRules(p@),
    }
}

pub open spec fn tasks_view(v: Seq<LoadTask>) -> Seq<LoadTaskView> {
    v.map_values(|t: LoadTask| task_view(t))
}

} // verus!
