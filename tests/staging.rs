use brotlic::Staging;

#[test]
fn staging_is_first_in_first_out() {
    let mut st = Staging::new(8);
    assert!(st.is_empty());
    assert_eq!(st.room(), 8);
    st.push(&[1, 2, 3]);
    st.push(&[4, 5]);
    assert_eq!(st.pending(), &[1, 2, 3, 4, 5]);
    st.consume(2);
    assert_eq!(st.pending(), &[3, 4, 5]);
    assert_eq!(st.len(), 3);
    assert_eq!(st.room(), 5);
}

#[test]
fn staging_compacts_to_make_room() {
    let mut st = Staging::new(4);
    st.push(&[1, 2, 3]);
    st.consume(2);
    st.push(&[4, 5, 6]);
    assert_eq!(st.pending(), &[3, 4, 5, 6]);
    assert_eq!(st.room(), 0);
    assert_eq!(st.capacity(), 4);
}

#[test]
fn staging_drained_resets() {
    let mut st = Staging::new(4);
    st.push(&[9, 9, 9]);
    st.consume(3);
    assert!(st.is_empty());
    st.push(&[1, 2, 3, 4]);
    assert_eq!(st.pending(), &[1, 2, 3, 4]);
}
