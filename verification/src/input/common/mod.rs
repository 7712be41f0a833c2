//! The input shared by all sources: the map from channel group to channels.

pub mod init;
pub mod load;

use vstd::prelude::*;
use crate::input::{tasks_view, LoadTask, LoadTaskView};
use crate::utils::steps::{steps_view, DbStep};

verus! {

/// The steps that prepare the tables of this input (see `init::common_setup`).
pub fn create_tables(clean: bool) -> (steps: Vec<DbStep>)
    ensures
        steps_view(steps@) == init::common_setup(clean),
{
    init::create_tables(clean)
}

/// The loaders of this input: the channel groups of `data/input/channel-groups.yaml`.
pub fn load_files() -> (tasks: Vec<LoadTask>)
    ensures
        tasks_view(tasks@) == seq![LoadTaskView::ChannelGroups("data/input/channel-groups.yaml"@)],
{
    let mut tasks: Vec<LoadTask> = Vec::new();
    tasks.push(LoadTask::ChannelGroups("data/input/channel-groups.yaml".to_string()));
    assert(tasks_view(tasks@) =~= seq![
        LoadTaskView::ChannelGroups("data/input/channel-groups.yaml"@),
    ]);
    tasks
}

} // verus!
