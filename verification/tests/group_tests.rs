use sparsey::group::{group_range_impl, Group, GroupFamily, GroupInfo, QueryGroupInfo};

fn family(id: u64) -> GroupFamily {
    GroupFamily {
        id,
        groups: vec![
            Group { include_mask: 0b011, len: 2 },
            Group { include_mask: 0b111, len: 1 },
        ],
    }
}

#[test]
fn combine_same_family() {
    let f = family(1);
    let a = GroupInfo { family: &f, offset: 0, mask: 0b001 };
    let c = GroupInfo { family: &f, offset: 1, mask: 0b100 };
    let ac = a.combine(c).unwrap();
    assert_eq!(ac.offset, 1);
    assert_eq!(ac.mask, 0b101);
    let ca = c.combine(a).unwrap();
    assert_eq!((ca.offset, ca.mask), (ac.offset, ac.mask));
}

#[test]
fn combine_other_family_fails() {
    let f = family(1);
    let g = family(2);
    let a = GroupInfo { family: &f, offset: 0, mask: 0b001 };
    let b = GroupInfo { family: &g, offset: 0, mask: 0b010 };
    assert!(a.combine(b).is_none());
}

#[test]
fn include_group_range_needs_whole_group() {
    let f = family(1);
    let ab = GroupInfo { family: &f, offset: 0, mask: 0b011 };
    assert_eq!(ab.include_group_range(), Some(0..2));
    let a = GroupInfo { family: &f, offset: 0, mask: 0b001 };
    assert_eq!(a.include_group_range(), None);
    let abc = GroupInfo { family: &f, offset: 1, mask: 0b111 };
    assert_eq!(abc.include_group_range(), Some(0..1));
    let out = GroupInfo { family: &f, offset: 5, mask: 0b011 };
    assert_eq!(out.include_group_range(), None);
}

#[test]
fn exclude_group_range_is_between_groups() {
    let f = family(1);
    let ab = GroupInfo { family: &f, offset: 0, mask: 0b011 };
    let c = GroupInfo { family: &f, offset: 1, mask: 0b100 };
    assert_eq!(ab.exclude_group_range(&c), Some(1..2));
    let b = GroupInfo { family: &f, offset: 0, mask: 0b010 };
    assert_eq!(b.exclude_group_range(&c), None);
    let g = family(2);
    let other = GroupInfo { family: &g, offset: 1, mask: 0b100 };
    assert_eq!(ab.exclude_group_range(&other), None);
}

#[test]
fn as_group_info_of_each_variant() {
    let f = family(1);
    let ab = GroupInfo { family: &f, offset: 0, mask: 0b011 };
    assert!(QueryGroupInfo::Empty.as_group_info().is_none());
    assert!(QueryGroupInfo::Single { len: 3, group_info: None }.as_group_info().is_none());
    assert_eq!(
        QueryGroupInfo::Single { len: 3, group_info: Some(ab) }.as_group_info().map(|g| g.mask),
        Some(0b011)
    );
    assert_eq!(QueryGroupInfo::Multiple(ab).as_group_info().map(|g| g.mask), Some(0b011));
}

#[test]
fn group_range_impl_cases() {
    let f = family(1);
    let a = GroupInfo { family: &f, offset: 0, mask: 0b001 };
    let b = GroupInfo { family: &f, offset: 0, mask: 0b010 };
    let c = GroupInfo { family: &f, offset: 1, mask: 0b100 };
    // a single storage is iterated whole
    assert_eq!(
        group_range_impl(
            QueryGroupInfo::Single { len: 5, group_info: None },
            QueryGroupInfo::Empty,
            QueryGroupInfo::Empty
        ),
        Some(0..5)
    );
    // an included storage alone is iterated whole too
    assert_eq!(
        group_range_impl(
            QueryGroupInfo::Empty,
            QueryGroupInfo::Single { len: 4, group_info: None },
            QueryGroupInfo::Empty
        ),
        Some(0..4)
    );
    // two storages of a group
    assert_eq!(
        group_range_impl(
            QueryGroupInfo::Single { len: 3, group_info: Some(a) },
            QueryGroupInfo::Single { len: 3, group_info: Some(b) },
            QueryGroupInfo::Empty
        ),
        Some(0..2)
    );
    // a group minus a storage of the next group
    assert_eq!(
        group_range_impl(
            QueryGroupInfo::Multiple(a.combine(b).unwrap()),
            QueryGroupInfo::Empty,
            QueryGroupInfo::Single { len: 1, group_info: Some(c) }
        ),
        Some(1..2)
    );
    // an ungrouped storage cannot be combined
    assert_eq!(
        group_range_impl(
            QueryGroupInfo::Single { len: 3, group_info: None },
            QueryGroupInfo::Single { len: 3, group_info: Some(b) },
            QueryGroupInfo::Empty
        ),
        None
    );
}

