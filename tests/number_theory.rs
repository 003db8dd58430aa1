use pyruvate::group_theory::{
    read_eea_input, read_group_input, EeaError, GroupRequest, GroupTheoryMessage,
    GroupTheorySubState, GroupsError, IcedEEA, IcedEEAMessage, IcedGroupMessage, IcedGroupTheory,
    IcedGroups,
};
use pyruvate::number_theory::{power_fits, GroupType};

fn eea_after(text: &str) -> IcedEEA {
    let mut eea = IcedEEA::new();
    eea.update(IcedEEAMessage::EditValue(text.to_string()));
    eea.update(IcedEEAMessage::Calculate);
    eea
}

fn groups_after(text: &str) -> IcedGroups {
    let mut groups = IcedGroups::new();
    groups.update(IcedGroupMessage::EditValue(text.to_string()));
    groups.update(IcedGroupMessage::Calculate);
    groups
}

#[test]
fn eea_input_is_read() {
    assert_eq!(read_eea_input("3, 7"), Ok((3, 7)));
    assert_eq!(read_eea_input("3, 7, 9"), Ok((3, 7)));
    assert_eq!(read_eea_input("3,7"), Err(EeaError::MissingInput));
    assert_eq!(read_eea_input(""), Err(EeaError::MissingInput));
    assert_eq!(read_eea_input("x, 7"), Err(EeaError::NotANumber));
    assert_eq!(read_eea_input("3, "), Err(EeaError::NotANumber));
    assert_eq!(read_eea_input("7, 3"), Err(EeaError::NotSmaller));
    assert_eq!(read_eea_input("5, 5"), Err(EeaError::NotSmaller));
    assert_eq!(read_eea_input("0, 5"), Err(EeaError::NotPositive));
    assert_eq!(read_eea_input("-3, 5"), Err(EeaError::NotPositive));
}

#[test]
fn eea_table_of_two_numbers() {
    let eea = eea_after("935, 1491");
    assert_eq!(eea.error, None);
    assert_eq!(
        eea.result,
        Some(vec![
            vec![935, 556, 379, 177, 25, 2, 1],
            vec![1491, 935, 556, 379, 177, 25, 2],
            vec![1, 1, 1, 2, 7, 12, -1],
            vec![716, -449, 267, -182, 85, -12, 1],
            vec![-449, 267, -182, 85, -12, 1, 0],
        ])
    );
}

#[test]
fn eea_table_with_one_step() {
    let eea = eea_after("1, 5");
    assert_eq!(eea.result, Some(vec![vec![1], vec![5], vec![-1], vec![1], vec![0]]));
}

#[test]
fn eea_rejects_a_not_smaller_than_b() {
    let eea = eea_after("7, 3");
    assert_eq!(eea.result, None);
    assert_eq!(eea.error, Some(EeaError::NotSmaller));
    assert_eq!(eea.error_message(), Some("a must be smaller than b".to_string()));
}

#[test]
fn eea_error_keeps_the_previous_table() {
    let mut eea = eea_after("3, 7");
    let before = eea.result.clone();
    assert!(before.is_some());
    eea.update(IcedEEAMessage::EditValue("a, 7".to_string()));
    eea.update(IcedEEAMessage::Calculate);
    assert_eq!(eea.error, Some(EeaError::NotANumber));
    assert_eq!(eea.result, before);
    eea.update(IcedEEAMessage::EditValue("2, 9".to_string()));
    eea.update(IcedEEAMessage::Calculate);
    assert_eq!(eea.error, None);
    assert_eq!(eea.result.unwrap()[0], vec![2, 1]);
}

#[test]
fn eea_messages() {
    assert_eq!(EeaError::MissingInput.message(), "a and b are not given or format is wrong");
    assert_eq!(EeaError::NotANumber.message(), "a and/or b is not a number");
    assert_eq!(EeaError::NotPositive.message(), "a must be greater than 0");
}

#[test]
fn group_input_is_read() {
    let req = |m, kind, big| Ok(GroupRequest { modulus: m, kind, big });
    assert_eq!(read_group_input("7, a"), req(7, GroupType::Additive, false));
    assert_eq!(read_group_input("7, m"), req(7, GroupType::Multiplicative, false));
    assert_eq!(read_group_input("7, mb"), req(7, GroupType::Multiplicative, true));
    assert_eq!(read_group_input("7, m*"), req(7, GroupType::MultiplicativeStar, false));
    assert_eq!(read_group_input("7, m*b, x"), req(7, GroupType::MultiplicativeStar, true));
    assert_eq!(read_group_input("7"), Err(GroupsError::MissingOperation));
    assert_eq!(read_group_input("7,m"), Err(GroupsError::MissingOperation));
    assert_eq!(read_group_input("x, m"), Err(GroupsError::InvalidInput));
    assert_eq!(read_group_input("7, q"), Err(GroupsError::InvalidInput));
    assert_eq!(read_group_input("7, m*bb"), Err(GroupsError::InvalidInput));
    assert_eq!(read_group_input("1, a"), Err(GroupsError::ModulusOutOfRange));
    assert_eq!(read_group_input("-5, m"), Err(GroupsError::ModulusOutOfRange));
    assert_eq!(read_group_input("3037000500, m"), Err(GroupsError::ModulusOutOfRange));
    assert_eq!(read_group_input("3037000499, m"), req(3037000499, GroupType::Multiplicative, false));
}

#[test]
fn units_modulo_seven() {
    let g = groups_after("7, m*");
    assert_eq!(g.error, None);
    assert_eq!(g.group_type, GroupType::MultiplicativeStar);
    assert_eq!(g.prime_factors, vec![7]);
    assert_eq!(g.group_size, 6);
    assert_eq!(g.group_size_prime_factors, vec![2, 3]);
    assert_eq!(g.group, vec![1, 2, 3, 4, 5, 6]);
    assert_eq!(g.possible_orders, vec![1, 2, 3, 6]);
    assert_eq!(g.orders, vec![(1, 1), (2, 3), (3, 6), (4, 3), (5, 6), (6, 2)]);
    assert_eq!(g.producers, vec![3, 5]);
}

#[test]
fn additive_group_modulo_ten() {
    let g = groups_after("10, a");
    assert_eq!(g.error, None);
    assert_eq!(g.prime_factors, vec![2, 5]);
    assert_eq!(g.group_size, 10);
    assert_eq!(g.group, (0..10).collect::<Vec<i64>>());
    assert_eq!(g.possible_orders, vec![1, 2, 5, 10]);
    assert_eq!(g.orders[2], (2, 5));
    assert_eq!(g.orders[5], (5, 2));
    assert_eq!(g.producers, vec![1, 2, 3, 4, 5, 6, 7, 8, 9]);
}

#[test]
fn multiplicative_group_modulo_six() {
    let g = groups_after("6, m");
    assert_eq!(g.group, vec![0, 1, 2, 3, 4, 5]);
    assert_eq!(g.orders, vec![(0, 1), (1, 1), (2, 6), (3, 6), (4, 6), (5, 2)]);
    assert_eq!(g.producers, vec![0, 2, 3, 4]);
    assert_eq!(g.error, None);
}

#[test]
fn units_modulo_twelve_have_no_producer() {
    let g = groups_after("12, m*");
    assert_eq!(g.prime_factors, vec![2, 2, 3]);
    assert_eq!(g.group, vec![1, 5, 7, 11]);
    assert_eq!(g.group_size_prime_factors, vec![2, 2]);
    assert_eq!(g.producers, Vec::<i64>::new());
    assert_eq!(g.error, None);
}

#[test]
fn large_group_needs_the_long_search() {
    let g = groups_after("59, m*");
    assert_eq!(g.group_size, 58);
    assert_eq!(g.group.len(), 58);
    assert_eq!(g.producers, Vec::<i64>::new());
    assert_eq!(g.error, Some(GroupsError::ProducersNeedBig));
    assert_eq!(
        g.error_message(),
        Some("to calculate producers bigger than 54 use 'm*b' or 'mb'".to_string())
    );
}

#[test]
fn large_group_with_the_long_search() {
    let g = groups_after("59, m*b");
    assert_eq!(g.error, None);
    assert_eq!(g.possible_orders, vec![1, 2, 29, 58]);
    assert_eq!(
        g.producers,
        vec![
            2, 6, 8, 10, 11, 13, 14, 18, 23, 24, 30, 31, 32, 33, 34, 37, 38, 39, 40, 42, 43, 44,
            47, 50, 52, 54, 55, 56
        ]
    );
}

#[test]
fn quick_search_that_would_overflow() {
    let g = groups_after("53, m*");
    assert_eq!(g.group_size, 52);
    assert_eq!(g.producers, Vec::<i64>::new());
    assert_eq!(g.error, Some(GroupsError::ProducersOverflow));
}

#[test]
fn too_many_producers_are_cleared() {
    let mut g = groups_after("7, m*");
    assert_eq!(g.producers, vec![3, 5]);
    g.update(IcedGroupMessage::EditValue("59, m".to_string()));
    g.update(IcedGroupMessage::Calculate);
    assert_eq!(g.group_type, GroupType::Multiplicative);
    assert_eq!(g.producers, Vec::<i64>::new());
    assert_eq!(g.error, Some(GroupsError::ProducersNeedBig));
}

#[test]
fn group_input_error_keeps_the_result() {
    let mut g = groups_after("7, m*");
    g.update(IcedGroupMessage::EditValue("7".to_string()));
    g.update(IcedGroupMessage::Calculate);
    assert_eq!(g.error, Some(GroupsError::MissingOperation));
    assert_eq!(
        g.error_message(),
        Some("input is not correct: num, a; num, m or num, m*".to_string())
    );
    assert_eq!(g.group, vec![1, 2, 3, 4, 5, 6]);
    assert_eq!(g.edit_text, "7");
}

#[test]
fn powers_that_fit() {
    assert!(power_fits(2, 62));
    assert!(!power_fits(2, 63));
    assert!(power_fits(0, 1000));
    assert!(power_fits(1, 1000));
    assert!(power_fits(7, 0));
    assert!(!power_fits(52, 26));
    assert!(power_fits(3037000499, 2));
    assert!(!power_fits(3037000500, 2));
}

#[test]
fn page_switches_and_routes_messages() {
    let mut page = IcedGroupTheory::new();
    assert!(matches!(page.state, GroupTheorySubState::Home));
    page.update(GroupTheoryMessage::IcedEEAMessage(IcedEEAMessage::Calculate));
    assert!(matches!(page.state, GroupTheorySubState::Home));
    page.update(GroupTheoryMessage::SwitchState(GroupTheorySubState::EEA(IcedEEA::new())));
    page.update(GroupTheoryMessage::IcedEEAMessage(IcedEEAMessage::EditValue("3, 7".to_string())));
    page.update(GroupTheoryMessage::IcedGroupMessage(IcedGroupMessage::Calculate));
    page.update(GroupTheoryMessage::IcedEEAMessage(IcedEEAMessage::Calculate));
    match &page.state {
        GroupTheorySubState::EEA(eea) => {
            assert_eq!(eea.edit_text, "3, 7");
            assert_eq!(eea.result.as_ref().unwrap()[3], vec![-2, 1]);
        }
        _ => panic!("the EEA panel should be open"),
    }
    page.update(GroupTheoryMessage::SwitchState(GroupTheorySubState::Groups(IcedGroups::new())));
    page.update(GroupTheoryMessage::IcedGroupMessage(IcedGroupMessage::EditValue("5, a".to_string())));
    page.update(GroupTheoryMessage::IcedGroupMessage(IcedGroupMessage::Calculate));
    match &page.state {
        GroupTheorySubState::Groups(g) => assert_eq!(g.group, vec![0, 1, 2, 3, 4]),
        _ => panic!("the group panel should be open"),
    }
}
