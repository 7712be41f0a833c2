use vstd::prelude::*;
use crate::utils::db::{lemma_prepares_within, lemma_setup_prepares, prepares, create_table, setup_steps};
use crate::utils::steps::{steps_view, DbStep, StepView};

verus! {

/// The steps that prepare the channel-group table.
pub open spec fn common_setup(clean: bool) -> Seq<StepView> {
    setup_steps(
        "TABLE"@,
        "Table"@,
        "map_channel_group_to_channel"@,
        "input/common/sql/create_map_channel_group_to_channel.sql"@,
        clean,
    )
}

pub fn create_tables(clean: bool) -> (steps: Vec<DbStep>)
    ensures
        steps_view(steps@) == common_setup(clean),
{
    create_table(
        "map_channel_group_to_channel",
        "input/common/sql/create_map_channel_group_to_channel.sql",
        clean,
    )
}

/// The common setup prepares the channel-group table.
pub proof fn lemma_common_setup_prepares_table(clean: bool)
    ensures
        prepares(common_setup(clean), "TABLE"@, "Table"@, "map_channel_group_to_channel"@, "input/common/sql/create_map_channel_group_to_channel.sql"@, clean),
{
    let p0 = setup_steps("TABLE"@, "Table"@, "map_channel_group_to_channel"@, "input/common/sql/create_map_channel_group_to_channel.sql"@, clean);
    assert(common_setup(clean) == p0);
    lemma_setup_prepares("TABLE"@, "Table"@, "map_channel_group_to_channel"@, "input/common/sql/create_map_channel_group_to_channel.sql"@, clean);
}

} // verus!
