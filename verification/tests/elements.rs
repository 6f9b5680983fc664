use powerset_domain::{
    HashSetAbstractDomain, PowersetLattice, SetAbstractDomainOps, SetElementOps, SetFromElements,
};
use std::collections::HashSet;

fn hash_set(items: &[i32]) -> HashSet<i32> {
    items.iter().copied().collect()
}

fn value(items: &[i32]) -> HashSetAbstractDomain<i32> {
    PowersetLattice::value_from_set(hash_set(items))
}

fn listed(x: &HashSetAbstractDomain<i32>) -> Vec<i32> {
    let mut out: Vec<i32> = x.elements().into_iter().copied().collect();
    out.sort();
    out
}

#[test]
fn added_element_is_listed() {
    let mut x = value(&[1, 2]);
    x.add_element(7);
    assert!(x.elements().contains(&&7));
    assert_eq!(listed(&x), vec![1, 2, 7]);
    assert_eq!(x, value(&[1, 2, 7]));
}

#[test]
fn adding_a_present_element_changes_nothing() {
    let mut x = value(&[1, 2]);
    x.add_element(2);
    assert_eq!(x, value(&[1, 2]));
    assert_eq!(listed(&x), vec![1, 2]);
}

#[test]
fn removed_element_is_not_listed() {
    let mut x = value(&[1, 2, 3]);
    x.remove_element(&2);
    assert!(!x.elements().contains(&&2));
    assert_eq!(listed(&x), vec![1, 3]);
    x.remove_element(&9);
    assert_eq!(x, value(&[1, 3]));
}

#[test]
fn removing_the_last_element_leaves_an_empty_value() {
    let mut x = value(&[4]);
    x.remove_element(&4);
    assert_eq!(x, value(&[]));
    assert!(!x.is_bottom());
    assert_eq!(listed(&x), Vec::<i32>::new());
}

#[test]
fn add_and_remove_leave_top_and_bottom_unchanged() {
    let mut t: HashSetAbstractDomain<i32> = PowersetLattice::top();
    t.add_element(1);
    assert_eq!(t, PowersetLattice::Top);
    t.remove_element(&1);
    assert_eq!(t, PowersetLattice::Top);
    t.add_elements(vec![1, 2]);
    assert_eq!(t, PowersetLattice::Top);
    t.remove_elements(&[1, 2]);
    assert_eq!(t, PowersetLattice::Top);

    let mut b: HashSetAbstractDomain<i32> = PowersetLattice::bottom();
    b.add_element(1);
    assert_eq!(b, PowersetLattice::Bottom);
    b.remove_element(&1);
    assert_eq!(b, PowersetLattice::Bottom);
    b.add_elements(vec![1, 2]);
    assert_eq!(b, PowersetLattice::Bottom);
    b.remove_elements(&[1, 2]);
    assert_eq!(b, PowersetLattice::Bottom);
}

#[test]
fn add_elements_adds_each() {
    let mut x = value(&[1]);
    x.add_elements(vec![3, 1, 2, 3]);
    assert_eq!(x, value(&[1, 2, 3]));
    x.add_elements(Vec::new());
    assert_eq!(x, value(&[1, 2, 3]));
}

#[test]
fn remove_elements_removes_each() {
    let mut x = value(&[1, 2, 3, 4]);
    x.remove_elements(&[2, 4, 4, 8]);
    assert_eq!(x, value(&[1, 3]));
    x.remove_elements(&[]);
    assert_eq!(x, value(&[1, 3]));
    x.remove_elements(&[1, 3]);
    assert_eq!(x, value(&[]));
}

#[test]
fn top_and_bottom_list_no_element() {
    let t: HashSetAbstractDomain<i32> = PowersetLattice::top();
    let b: HashSetAbstractDomain<i32> = PowersetLattice::bottom();
    assert!(t.elements().is_empty());
    assert!(b.elements().is_empty());
    assert!(value(&[]).elements().is_empty());
}

#[test]
fn elements_lists_each_element_once() {
    let x = value(&[5, 3, 9, 3, 5]);
    assert_eq!(x.elements().len(), 3);
    assert_eq!(listed(&x), vec![3, 5, 9]);
    assert_eq!(listed(&x), listed(&x));
}

#[test]
fn set_and_into_set_give_the_wrapped_set() {
    let x = value(&[1, 2]);
    assert_eq!(x.set(), &hash_set(&[1, 2]));
    assert_eq!(x.into_set(), hash_set(&[1, 2]));
    let e = value(&[]);
    assert!(e.set().is_empty());
}

#[test]
fn projection_is_guarded_by_the_state_queries() {
    let mut x = value(&[2, 3]);
    x.widen_with(value(&[]));
    assert!(x.is_top());
    let guarded = if x.is_top() || x.is_bottom() { None } else { Some(x.into_set()) };
    assert_eq!(guarded, None);
}

#[test]
fn from_iter_collects_into_a_value() {
    let x: HashSetAbstractDomain<i32> = PowersetLattice::from_iter(vec![10, 20, 30]);
    assert_eq!(listed(&x), vec![10, 20, 30]);
    assert_eq!(x, value(&[10, 20, 30]));
    let d: HashSetAbstractDomain<i32> = PowersetLattice::from_iter(vec![2, 1, 2, 1]);
    assert_eq!(d, value(&[1, 2]));
}

#[test]
fn from_iter_of_nothing_is_an_empty_value() {
    let x: HashSetAbstractDomain<i32> = PowersetLattice::from_iter(Vec::new());
    assert_eq!(x, value(&[]));
    assert!(!x.is_bottom());
    assert!(!x.is_top());
}

#[test]
fn hash_set_subset() {
    assert!(SetAbstractDomainOps::is_subset(&hash_set(&[]), &hash_set(&[])));
    assert!(SetAbstractDomainOps::is_subset(&hash_set(&[]), &hash_set(&[1])));
    assert!(SetAbstractDomainOps::is_subset(&hash_set(&[1, 2]), &hash_set(&[1, 2])));
    assert!(SetAbstractDomainOps::is_subset(&hash_set(&[1, 2]), &hash_set(&[3, 2, 1])));
    assert!(!SetAbstractDomainOps::is_subset(&hash_set(&[1, 4]), &hash_set(&[3, 2, 1])));
    assert!(!SetAbstractDomainOps::is_subset(&hash_set(&[1]), &hash_set(&[])));
}

#[test]
fn hash_set_union_and_intersection() {
    let mut u = hash_set(&[1, 2]);
    u.union_with(hash_set(&[2, 3]));
    assert_eq!(u, hash_set(&[1, 2, 3]));
    u.union_with(hash_set(&[]));
    assert_eq!(u, hash_set(&[1, 2, 3]));

    let mut i = hash_set(&[1, 2, 3]);
    i.intersection_with(&hash_set(&[2, 3, 4]));
    assert_eq!(i, hash_set(&[2, 3]));
    i.intersection_with(&hash_set(&[7]));
    assert_eq!(i, hash_set(&[]));
}

#[test]
fn hash_set_element_operations() {
    let mut s = hash_set(&[]);
    s.add_element(3);
    s.add_element(1);
    s.add_element(3);
    assert_eq!(s, hash_set(&[1, 3]));
    s.remove_element(&3);
    s.remove_element(&8);
    assert_eq!(s, hash_set(&[1]));
    let l = SetElementOps::elements(&s);
    assert_eq!(l, vec![&1]);
}

#[test]
fn hash_set_from_elements() {
    let s: HashSet<u8> = SetFromElements::from_elements(vec![9, 7, 9]);
    let expected: HashSet<u8> = [7u8, 9u8].into_iter().collect();
    assert_eq!(s, expected);
    let e: HashSet<u8> = SetFromElements::from_elements(Vec::new());
    assert!(e.is_empty());
}

#[test]
fn other_key_types() {
    let mut flags: HashSetAbstractDomain<bool> = PowersetLattice::from_iter(vec![true]);
    flags.add_element(false);
    flags.remove_element(&true);
    assert_eq!(flags.elements(), vec![&false]);

    let mut ids: HashSetAbstractDomain<u64> = PowersetLattice::bottom();
    ids.join_with(PowersetLattice::from_iter(vec![u64::MAX, 0]));
    ids.meet_with(PowersetLattice::from_iter(vec![u64::MAX, 1]));
    assert_eq!(ids, PowersetLattice::from_iter(vec![u64::MAX]));
    assert!(ids.leq(&PowersetLattice::from_iter(vec![1, u64::MAX])));
    assert!(!ids.leq(&PowersetLattice::from_iter(vec![1])));

    let mut offsets: HashSetAbstractDomain<i64> = PowersetLattice::from_iter(vec![-1, 1]);
    offsets.add_elements(vec![i64::MIN, 1]);
    offsets.remove_elements(&[-1]);
    let mut seen: Vec<i64> = offsets.elements().into_iter().copied().collect();
    seen.sort();
    assert_eq!(seen, vec![i64::MIN, 1]);
}
