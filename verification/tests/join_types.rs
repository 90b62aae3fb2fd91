use datafusion::prelude::JoinType as EngineJoinType;
use plan_builder::data_frame::JoinType;

#[test]
fn join_types_translate_one_to_one() {
    let pairs = [
        (JoinType::Inner, EngineJoinType::Inner),
        (JoinType::Left, EngineJoinType::Left),
        (JoinType::Right, EngineJoinType::Right),
        (JoinType::Full, EngineJoinType::Full),
        (JoinType::LeftSemi, EngineJoinType::LeftSemi),
        (JoinType::RightSemi, EngineJoinType::RightSemi),
        (JoinType::LeftAnti, EngineJoinType::LeftAnti),
        (JoinType::RightAnti, EngineJoinType::RightAnti),
    ];
    for (ours, theirs) in pairs {
        assert_eq!(EngineJoinType::from(ours), theirs);
    }
    for (i, (_, left)) in pairs.iter().enumerate() {
        for (j, (_, right)) in pairs.iter().enumerate() {
            assert_eq!(i == j, left == right);
        }
    }
}
