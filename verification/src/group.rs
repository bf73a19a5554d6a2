//! Grouping information. Storages of a group family are nested groups: group
//! `j` holds the storages whose bits are in its mask, and the
//! entities that have all of them are packed, in one order, at the front of
//! each of those storages. Queries that match a group exactly can iterate a
//! range of dense indexes instead of probing sparse vectors.
use core::ops::Range;
use vstd::prelude::*;

verus! {

/// One group of a family: the storages whose bits are in `include_mask`,
/// and the number of entities that have components in all of them.
#[derive(Clone, Copy, PartialEq, Eq, Structural, Debug)]
pub struct Group {
    /// Bits of the storages of the family that make up the group.
    pub include_mask: u64,
    /// Number of entities packed at the front of the group's storages.
    pub len: usize,
}

/// A family of nested groups, identified by `id`.
pub struct GroupFamily {
    /// Identifies the family; two group infos with the same id belong to
    /// the same family.
    pub id: u64,
    /// The groups, from the one with the fewest storages to the one with the
    /// most.
    pub groups: Vec<Group>,
}

/// The range `start..end`.
pub open spec fn range(start: usize, end: usize) -> Range<usize> {
    Range { start, end }
}

/// Grouping information of one or more storages of a family: the smallest
/// group that holds all of them, and their bits.
#[derive(Clone, Copy)]
pub struct GroupInfo<'a> {
    /// The family of the storages.
    pub family: &'a GroupFamily,
    /// Index of the smallest group of the family that holds the storages.
    pub offset: usize,
    /// Bits of the storages.
    pub mask: u64,
}

/// The group at `offset` of `family`, if there is one.
pub open spec fn spec_group_at(family: &GroupFamily, offset: usize) -> Option<Group> {
    if offset < family.groups@.len() {
        Some(family.groups@[offset as int])
    } else {
        None
    }
}

impl<'a> GroupInfo<'a> {
    /// Grouping information of the union of two sets of storages of one family.
    pub open spec fn spec_combine(self, info: Self) -> Option<Self> {
        if self.family.id == info.family.id {
            Some(
                GroupInfo {
                    family: self.family,
                    offset: if self.offset >= info.offset {
                        self.offset
                    } else {
                        info.offset
                    },
                    mask: self.mask | info.mask,
                },
            )
        } else {
            None
        }
    }

    /// The dense range of the entities that have all the storages, when the
    /// storages make up a whole group.
    pub open spec fn spec_include_group_range(self) -> Option<Range<usize>> {
        match spec_group_at(self.family, self.offset) {
            Some(g) => if g.include_mask == self.mask {
                Some(range(0, g.len))
            } else {
                None
            },
            None => None,
        }
    }

    /// The dense range of the entities that have all the storages of `self`
    /// and not all those of `exclude`, when both `self` and the union make
    /// up whole groups.
    pub open spec fn spec_exclude_group_range(self, exclude: Self) -> Option<Range<usize>> {
        match self.spec_combine(exclude) {
            Some(all) => match (
                spec_group_at(self.family, self.offset),
                spec_group_at(self.family, all.offset),
            ) {
                (Some(gi), Some(ge)) => if gi.include_mask == self.mask && ge.include_mask
                    == all.mask && ge.len <= gi.len {
                    Some(range(ge.len, gi.len))
                } else {
                    None
                },
                _ => None,
            },
            None => None,
        }
    }

    /// Combines the grouping information of two sets of storages. Returns
    /// `None` when they belong to different families.
    pub fn combine(self, info: Self) -> (r: Option<Self>)
        ensures
            r == self.spec_combine(info),
    {
        if self.family.id != info.family.id {
            return None;
        }
        Some(
            GroupInfo {
                family: self.family,
                offset: if self.offset >= info.offset {
                    self.offset
                } else {
                    info.offset
                },
                mask: self.mask | info.mask,
            },
        )
    }

    fn group(&self, offset: usize) -> (r: Option<Group>)
        ensures
            r == spec_group_at(self.family, offset),
    {
        if offset < self.family.groups.len() {
            Some(self.family.groups[offset])
        } else {
            None
        }
    }

    /// Returns the dense range of the entities that have all the storages,
    /// if the storages make up a whole group.
    pub fn include_group_range(&self) -> (r: Option<Range<usize>>)
        ensures
            r == self.spec_include_group_range(),
    {
        match self.group(self.offset) {
            Some(g) => if g.include_mask == self.mask {
                Some(0..g.len)
            } else {
                None
            },
            None => None,
        }
    }

    /// Returns the dense range of the entities that have all the storages of
    /// `self` and not all those of `exclude`, if `self` and the union of both
    /// make up whole groups of one family.
    pub fn exclude_group_range(&self, exclude: &Self) -> (r: Option<Range<usize>>)
        ensures
            r == self.spec_exclude_group_range(*exclude),
    {
        let all = match self.combine(*exclude) {
            Some(all) => all,
            None => return None,
        };
        match (self.group(self.offset), self.group(all.offset)) {
            (Some(gi), Some(ge)) => if gi.include_mask == self.mask && ge.include_mask == all.mask
                && ge.len <= gi.len {
                Some(ge.len..gi.len)
            } else {
                None
            },
            _ => None,
        }
    }
}

/// Combining grouping information does not depend on the order: both orders
/// succeed or fail together and give the same group and storages.
pub proof fn lemma_combine_commutative<'a>(a: GroupInfo<'a>, b: GroupInfo<'a>)
    ensures
        a.spec_combine(b) is Some <==> b.spec_combine(a) is Some,
        a.spec_combine(b) matches Some(x) ==> b.spec_combine(a) matches Some(y) && x.family.id
            == y.family.id && x.offset == y.offset && x.mask == y.mask,
{
    let (ma, mb) = (a.mask, b.mask);
    assert(ma | mb == mb | ma) by (bit_vector);
}

/// Combining grouping information does not depend on the grouping: both
/// groupings succeed or fail together and give the same group and storages.
pub proof fn lemma_combine_associative<'a>(a: GroupInfo<'a>, b: GroupInfo<'a>, c: GroupInfo<'a>)
    ensures
        (match a.spec_combine(b) {
            Some(ab) => ab.spec_combine(c),
            None => None,
        }) is Some <==> (match b.spec_combine(c) {
            Some(bc) => a.spec_combine(bc),
            None => None,
        }) is Some,
        (match a.spec_combine(b) {
            Some(ab) => ab.spec_combine(c),
            None => None,
        }) matches Some(x) ==> (match b.spec_combine(c) {
            Some(bc) => a.spec_combine(bc),
            None => None,
        }) matches Some(y) && x.family == y.family && x.offset == y.offset && x.mask == y.mask,
{
    let (ma, mb, mc) = (a.mask, b.mask, c.mask);
    assert((ma | mb) | mc == ma | (mb | mc)) by (bit_vector);
}

/// Combining grouping information with itself changes nothing.
pub proof fn lemma_combine_idempotent<'a>(a: GroupInfo<'a>)
    ensures
        a.spec_combine(a) == Some(a),
{
    let m = a.mask;
    assert(m | m == m) by (bit_vector);
}

/// A group range of storages exists exactly when they make up a whole
/// group of their family, and it spans the entities packed at the front of
/// that group.
pub proof fn lemma_include_group_range_whole<'a>(g: GroupInfo<'a>)
    ensures
        g.spec_include_group_range() is Some <==> (g.offset < g.family.groups@.len()
            && g.family.groups@[g.offset as int].include_mask == g.mask),
        g.spec_include_group_range() matches Some(r) ==> r.start == 0 && r.end
            == g.family.groups@[g.offset as int].len,
{
}

/// Excluding storages from a whole group gives a range exactly when the
/// excluded storages belong to the same family and, together with the
/// included ones, make up a larger whole group: the range then spans the
/// entities of the included group that are not in the larger one.
pub proof fn lemma_exclude_group_range_whole<'a>(incl: GroupInfo<'a>, exclude: GroupInfo<'a>)
    ensures
        ({
            let groups = incl.family.groups@;
            let off: int = if incl.offset >= exclude.offset {
                incl.offset as int
            } else {
                exclude.offset as int
            };
            &&& incl.spec_exclude_group_range(exclude) is Some <==> {
                &&& incl.family.id == exclude.family.id
                &&& incl.offset < groups.len()
                &&& off < groups.len()
                &&& groups[incl.offset as int].include_mask == incl.mask
                &&& groups[off].include_mask == incl.mask | exclude.mask
                &&& groups[off].len <= groups[incl.offset as int].len
            }
            &&& incl.spec_exclude_group_range(exclude) matches Some(r) ==> {
                &&& r.start == groups[off].len
                &&& r.end == groups[incl.offset as int].len
                &&& groups[off].include_mask == incl.mask | exclude.mask
            }
        }),
{
}

/// Grouping information of a query.
#[derive(Clone, Copy)]
pub enum QueryGroupInfo<'a> {
    /// The query has no storages.
    Empty,
    /// The query has a single storage.
    Single {
        /// The number of components in the storage.
        len: usize,
        /// The group info of the storage, if it belongs to a family.
        group_info: Option<GroupInfo<'a>>,
    },
    /// The query has multiple storages of one family.
    Multiple(GroupInfo<'a>),
}

impl<'a> QueryGroupInfo<'a> {
    /// The inner group info, if any.
    pub open spec fn spec_as_group_info(self) -> Option<GroupInfo<'a>> {
        match self {
            QueryGroupInfo::Empty => None,
            QueryGroupInfo::Single { group_info, .. } => group_info,
            QueryGroupInfo::Multiple(group_info) => Some(group_info),
        }
    }

    /// Returns the inner group info, if any.
    pub fn as_group_info(self) -> (r: Option<GroupInfo<'a>>)
        ensures
            r == self.spec_as_group_info(),
    {
        match self {
            QueryGroupInfo::Empty => None,
            QueryGroupInfo::Single { group_info, .. } => group_info,
            QueryGroupInfo::Multiple(group_info) => Some(group_info),
        }
    }
}

/// The dense range over which a query with the given get, included and
/// excluded grouping information can be iterated, if there is one.
pub open spec fn spec_group_range_impl<'a>(
    get: QueryGroupInfo<'a>,
    incl: QueryGroupInfo<'a>,
    exclude: QueryGroupInfo<'a>,
) -> Option<Range<usize>> {
    let include_info: Option<QueryGroupInfo<'a>> = match (get, incl) {
        (QueryGroupInfo::Empty, QueryGroupInfo::Empty) => None,
        (get, QueryGroupInfo::Empty) => Some(get),
        (QueryGroupInfo::Empty, incl) => Some(incl),
        (get, incl) => match (get.spec_as_group_info(), incl.spec_as_group_info()) {
            (Some(g), Some(i)) => match g.spec_combine(i) {
                Some(c) => Some(QueryGroupInfo::Multiple(c)),
                None => None,
            },
            _ => None,
        },
    };
    match include_info {
        None => None,
        Some(incl) => match (incl, exclude) {
            (QueryGroupInfo::Single { len, .. }, QueryGroupInfo::Empty) => Some(range(0, len)),
            (QueryGroupInfo::Multiple(i), QueryGroupInfo::Empty) => i.spec_include_group_range(),
            (incl, exclude) => match (incl.spec_as_group_info(), exclude.spec_as_group_info()) {
                (Some(i), Some(e)) => i.spec_exclude_group_range(e),
                _ => None,
            },
        },
    }
}

/// Returns the dense range over which a query with the given get, included
/// and excluded grouping information can be iterated, if there is one. A
/// query must get or require at least one storage.
pub fn group_range_impl<'a>(
    get: QueryGroupInfo<'a>,
    incl: QueryGroupInfo<'a>,
    exclude: QueryGroupInfo<'a>,
) -> (r: Option<Range<usize>>)
    requires
        !(get is Empty && incl is Empty),
    ensures
        r == spec_group_range_impl(get, incl, exclude),
{
    let incl = match (get, incl) {
        (QueryGroupInfo::Empty, QueryGroupInfo::Empty) => return None,
        (get, QueryGroupInfo::Empty) => get,
        (QueryGroupInfo::Empty, incl) => incl,
        (get, incl) => {
            let g = match get.as_group_info() {
                Some(g) => g,
                None => return None,
            };
            let i = match incl.as_group_info() {
                Some(i) => i,
                None => return None,
            };
            match g.combine(i) {
                Some(c) => QueryGroupInfo::Multiple(c),
                None => return None,
            }
        },
    };
    match (incl, exclude) {
        (QueryGroupInfo::Single { len, .. }, QueryGroupInfo::Empty) => Some(0..len),
        (QueryGroupInfo::Multiple(i), QueryGroupInfo::Empty) => i.include_group_range(),
        (incl, exclude) => {
            let i = match incl.as_group_info() {
                Some(i) => i,
                None => return None,
            };
            let e = match exclude.as_group_info() {
                Some(e) => e,
                None => return None,
            };
            i.exclude_group_range(&e)
        },
    }
}

} // verus!
