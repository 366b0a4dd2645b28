use kas_wgpu::draw::passes::Passes;

#[test]
fn new_list_has_no_slots() {
    let mut p: Passes<u32> = Passes::new();
    assert_eq!(p.len(), 0);
    assert_eq!(p.count(0), 0);
    assert_eq!(p.take(0), None);
    assert_eq!(p.len(), 0);
}

#[test]
fn growth_adds_eight_slots_beyond_the_pass() {
    let mut p: Passes<u32> = Passes::new();
    p.add_vertices(0, &[1, 2, 3]);
    assert_eq!(p.len(), 8);
    p.add_vertices(7, &[4]);
    assert_eq!(p.len(), 8);
    p.add_vertices(8, &[5]);
    assert_eq!(p.len(), 16);
    p.add_vertices(40, &[]);
    assert_eq!(p.len(), 48);
    assert_eq!(p.count(0), 3);
    assert_eq!(p.count(7), 1);
    assert_eq!(p.count(8), 1);
    assert_eq!(p.count(40), 0);
    assert_eq!(p.count(48), 0);
}

#[test]
fn vertices_keep_their_order() {
    let mut p: Passes<u32> = Passes::new();
    p.add_vertices(2, &[1, 2]);
    p.add_vertices(1, &[9]);
    p.add_vertices(2, &[3]);
    assert_eq!(p.take(2), Some(vec![1, 2, 3]));
    assert_eq!(p.take(1), Some(vec![9]));
}

#[test]
fn take_empties_one_queue_only() {
    let mut p: Passes<u32> = Passes::new();
    p.add_vertices(0, &[1]);
    p.add_vertices(1, &[2]);
    assert_eq!(p.take(0), Some(vec![1]));
    assert_eq!(p.count(0), 0);
    assert_eq!(p.count(1), 1);
    assert_eq!(p.len(), 8);
    assert_eq!(p.take(0), Some(vec![]));
    assert_eq!(p.take(8), None);
    assert_eq!(p.take(usize::MAX), None);
}
