use tokio_icmp_echo::state::PingState;

#[test]
fn nothing_waits_at_first() {
    let mut state: PingState<u8> = PingState::new();
    assert_eq!(state.remove(&[0; 24]), None);
}

#[test]
fn what_is_inserted_is_removed_once() {
    let mut state = PingState::new();
    state.insert([1; 24], 'a');
    state.insert([2; 24], 'b');
    state.insert([3; 24], 'c');
    assert_eq!(state.remove(&[1; 24]), Some('a'));
    assert_eq!(state.remove(&[1; 24]), None);
    assert_eq!(state.remove(&[3; 24]), Some('c'));
    assert_eq!(state.remove(&[2; 24]), Some('b'));
}

#[test]
fn a_second_insert_replaces_the_first() {
    let mut state = PingState::new();
    state.insert([1; 24], 1);
    state.insert([1; 24], 2);
    assert_eq!(state.remove(&[1; 24]), Some(2));
    assert_eq!(state.remove(&[1; 24]), None);
}

#[test]
fn bytes_that_are_no_token_find_nothing() {
    let mut state = PingState::new();
    state.insert([1; 24], 1);
    assert_eq!(state.remove(&[]), None);
    assert_eq!(state.remove(&[1; 23]), None);
    assert_eq!(state.remove(&[1; 25]), None);
    let mut almost = [1u8; 24];
    almost[23] = 2;
    assert_eq!(state.remove(&almost), None);
    assert_eq!(state.remove(&[1; 24]), Some(1));
}
