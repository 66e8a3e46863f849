//! Candidate lists: which persons stand, in which order, in which districts.

use vstd::prelude::*;

use crate::district::{district_title, ElectionConfig, ElectoralDistrict, all_districts};
use crate::ids::{CandidateListId, PersonId};
use crate::person::Person;
use crate::strings::join2;
use crate::table::Keyed;
use crate::time::Timestamp;

verus! {

/// A candidate list: the districts it is submitted in and the persons on it, in order.
#[derive(Debug)]
pub struct CandidateList {
    pub id: CandidateListId,
    pub electoral_districts: Vec<ElectoralDistrict>,
    pub candidates: Vec<PersonId>,
    pub created_at: Timestamp,
    pub updated_at: Timestamp,
}

/// A candidate list with its number of candidates and the districts it shares with
/// some list (itself included).
#[derive(Debug)]
pub struct CandidateListSummary {
    pub list: CandidateList,
    pub person_count: usize,
    pub duplicate_districts: Vec<ElectoralDistrict>,
}

/// A person on a candidate list, with the 1-based position.
#[derive(Debug)]
pub struct Candidate {
    pub list_id: CandidateListId,
    pub position: usize,
    pub person: Person,
}

/// A candidate list with the full records of its candidates, in list order.
#[derive(Debug)]
pub struct FullCandidateList {
    pub list: CandidateList,
    pub candidates: Vec<Candidate>,
}

/// An exact copy of a sequence of districts.
pub fn copy_districts(v: &Vec<ElectoralDistrict>) -> (r: Vec<ElectoralDistrict>)
    ensures
        r@ == v@,
{
    let mut r: Vec<ElectoralDistrict> = Vec::new();
    let n = v.len();
    let mut i: usize = 0;
    while i < n
        invariant
            n == v@.len(),
            0 <= i <= n,
            r@ == v@.subrange(0, i as int),
        decreases n - i,
    {
        r.push(v[i]);
        i = i + 1;
        assert(r@ =~= v@.subrange(0, i as int));
    }
    assert(r@ =~= v@);
    r
}

/// An exact copy of a sequence of person identifiers.
pub fn copy_person_ids(v: &Vec<PersonId>) -> (r: Vec<PersonId>)
    ensures
        r@ == v@,
{
    let mut r: Vec<PersonId> = Vec::new();
    let n = v.len();
    let mut i: usize = 0;
    while i < n
        invariant
            n == v@.len(),
            0 <= i <= n,
            r@ == v@.subrange(0, i as int),
        decreases n - i,
    {
        r.push(v[i]);
        i = i + 1;
        assert(r@ =~= v@.subrange(0, i as int));
    }
    assert(r@ =~= v@);
    r
}

impl Clone for CandidateList {
    fn clone(&self) -> (r: Self)
        ensures
            r@ == self@,
    {
        CandidateList {
            id: self.id,
            electoral_districts: copy_districts(&self.electoral_districts),
            candidates: copy_person_ids(&self.candidates),
            created_at: self.created_at,
            updated_at: self.updated_at,
        }
    }
}

impl Clone for Candidate {
    fn clone(&self) -> (r: Self)
        ensures
            r.list_id == self.list_id,
            r.position == self.position,
            r.person == self.person,
    {
        Candidate { list_id: self.list_id, position: self.position, person: self.person.clone() }
    }
}

/// The value of a candidate list, its sequences taken by their contents.
pub struct CandidateListView {
    pub id: CandidateListId,
    pub electoral_districts: Seq<ElectoralDistrict>,
    pub candidates: Seq<PersonId>,
    pub created_at: Timestamp,
    pub updated_at: Timestamp,
}

impl View for CandidateList {
    type V = CandidateListView;

    open spec fn view(&self) -> CandidateListView {
        CandidateListView {
            id: self.id,
            electoral_districts: self.electoral_districts@,
            candidates: self.candidates@,
            created_at: self.created_at,
            updated_at: self.updated_at,
        }
    }
}

impl Keyed for CandidateList {
    open spec fn key_of(v: CandidateListView) -> u128 {
        v.id.0
    }

    fn get_key(&self) -> (k: u128) {
        self.id.0
    }

    fn duplicate(&self) -> (r: Self) {
        self.clone()
    }
}

/// The names of the districts, separated by ", ".
pub open spec fn district_names(s: Seq<ElectoralDistrict>) -> Seq<char>
    decreases s.len(),
{
    if s.len() == 0 {
        Seq::empty()
    } else if s.len() == 1 {
        district_title(s[0])
    } else {
        district_names(s.drop_last()) + ", "@ + district_title(s.last())
    }
}

impl CandidateList {
    /// The names of the list's districts in list order, separated by ", ".
    pub fn districts_name(&self) -> (s: String)
        ensures
            s@ == district_names(self.electoral_districts@),
    {
        let d = &self.electoral_districts;
        let n = d.len();
        let mut s = String::new();
        let mut i: usize = 0;
        while i < n
            invariant
                n == d@.len(),
                0 <= i <= n,
                s@ == district_names(d@.subrange(0, i as int)),
            decreases n - i,
        {
            let title = d[i].title();
            assert(d@.subrange(0, i + 1).drop_last() =~= d@.subrange(0, i as int));
            if i == 0 {
                s = String::from_str(title);
            } else {
                let sep = join2(", ", title);
                s.append(sep.as_str());
                assert(s@ =~= district_names(d@.subrange(0, i as int)) + ", "@ + district_title(d@[i as int]));
            }
            i = i + 1;
        }
        assert(d@.subrange(0, n as int) =~= d@);
        s
    }

    /// Whether the list has as many districts as the election has.
    pub fn contains_all_districts(&self, election: &ElectionConfig) -> (b: bool)
        ensures
            b == (self.electoral_districts@.len() == all_districts().len()),
    {
        self.electoral_districts.len() == election.electoral_districts().len()
    }
}

impl FullCandidateList {
    /// The list's identifier.
    pub fn id(&self) -> (id: CandidateListId)
        ensures
            id == self.list.id,
    {
        self.list.id
    }

    /// Whether the person is one of the list's candidates.
    pub fn contains(&self, person_id: PersonId) -> (b: bool)
        ensures
            b == self.list.candidates@.contains(person_id),
    {
        contains_person(&self.list.candidates, person_id)
    }
}

/// Whether `id` occurs in `v`.
pub fn contains_person(v: &Vec<PersonId>, id: PersonId) -> (b: bool)
    ensures
        b == v@.contains(id),
{
    let n = v.len();
    let mut i: usize = 0;
    while i < n
        invariant
            n == v@.len(),
            0 <= i <= n,
            forall|j: int| 0 <= j < i ==> v@[j] != id,
        decreases n - i,
    {
        if v[i] == id {
            assert(v@[i as int] == id);
            return true;
        }
        i = i + 1;
    }
    false
}

} // verus!

verus! {

/// `a` comes before `b` in the store's order of candidate lists: earlier creation
/// time first, the smaller identifier first among lists created at the same time.
pub open spec fn list_before(a: CandidateListView, b: CandidateListView) -> bool {
    ||| crate::time::ts_before(a.created_at, b.created_at)
    ||| (a.created_at == b.created_at && a.id.0 < b.id.0)
}

/// The lists of `s` are in the store's order: no list comes before an earlier one.
pub open spec fn lists_sorted(s: Seq<CandidateListView>) -> bool {
    forall|i: int, j: int| 0 <= i < j < s.len() ==> !list_before(#[trigger] s[j], #[trigger] s[i])
}

/// Whether `a` comes before `b` in the store's order of candidate lists.
pub fn is_list_before(a: &CandidateList, b: &CandidateList) -> (r: bool)
    ensures
        r == list_before(a@, b@),
{
    a.created_at.is_before(&b.created_at) || (a.created_at == b.created_at && a.id.0 < b.id.0)
}

/// Two arrangements of the same lists, both in the store's order and with unique
/// identifiers, are the same sequence: the store's order is total on distinct lists.
pub proof fn lemma_sorted_lists_equal(a: Seq<CandidateListView>, b: Seq<CandidateListView>)
    requires
        a.to_multiset() == b.to_multiset(),
        lists_sorted(a),
        lists_sorted(b),
        crate::table::unique_keys::<CandidateList>(a),
    ensures
        a == b,
    decreases a.len(),
{
    broadcast use vstd::seq_lib::group_to_multiset_ensures;

    vstd::seq_lib::to_multiset_len(a);
    vstd::seq_lib::to_multiset_len(b);
    if a.len() == 0 {
        assert(a =~= b);
    } else {
        let n = a.len() as int;
        let x = a.last();
        let y = b.last();
        assert(a.contains(x) && b.contains(y)) by {
            assert(a[n - 1] == x);
            assert(b[n - 1] == y);
        }
        assert(a.to_multiset().count(x) > 0);
        assert(b.to_multiset().count(y) > 0);
        assert(b.contains(x));
        assert(a.contains(y));
        if x != y {
            let j = choose|j: int| 0 <= j < b.len() && b[j] == x;
            let i = choose|i: int| 0 <= i < a.len() && a[i] == y;
            assert(j != n - 1);
            assert(i != n - 1);
            assert(<CandidateList as Keyed>::key_of(a[i]) != <CandidateList as Keyed>::key_of(a[n - 1]));
            assert(!list_before(b[n - 1], b[j]));
            assert(!list_before(a[n - 1], a[i]));
            assert(false);
        }
        let a0 = a.drop_last();
        let b0 = b.drop_last();
        assert(a0.push(x) =~= a);
        assert(b0.push(x) =~= b);
        vstd::seq_lib::to_multiset_build(a0, x);
        vstd::seq_lib::to_multiset_build(b0, x);
        assert(a0.to_multiset() =~= b0.to_multiset()) by {
            assert forall|e: CandidateListView| a0.to_multiset().count(e) == b0.to_multiset().count(e) by {
                assert(a0.to_multiset().insert(x).count(e) == b0.to_multiset().insert(x).count(e));
            }
        }
        assert forall|p: int, q: int| 0 <= p < a0.len() && 0 <= q < a0.len()
            && #[trigger] <CandidateList as Keyed>::key_of(a0[p]) == #[trigger] <CandidateList as Keyed>::key_of(a0[q])
            implies p == q by {
            assert(a0[p] == a[p] && a0[q] == a[q]);
        }
        assert forall|p: int, q: int| 0 <= p < q < a0.len() implies !list_before(#[trigger] a0[q], #[trigger] a0[p]) by {
            assert(a0[p] == a[p] && a0[q] == a[q]);
        }
        assert forall|p: int, q: int| 0 <= p < q < b0.len() implies !list_before(#[trigger] b0[q], #[trigger] b0[p]) by {
            assert(b0[p] == b[p] && b0[q] == b[q]);
        }
        lemma_sorted_lists_equal(a0, b0);
    }
}

/// The lists of `v`, arranged in the store's order (creation time, then identifier).
/// Lists that compare equal keep their relative order.
pub fn sort_lists(v: Vec<CandidateList>) -> (r: Vec<CandidateList>)
    ensures
        crate::table::views(r@).to_multiset() == crate::table::views(v@).to_multiset(),
        lists_sorted(crate::table::views(r@)),
{
    broadcast use vstd::seq_lib::group_to_multiset_ensures;

    let ghost input = crate::table::views(v@);
    let mut r: Vec<CandidateList> = Vec::new();
    let mut v = v;
    let n = v.len();
    let mut i: usize = 0;
    assert(crate::table::views(r@) =~= Seq::<CandidateListView>::empty());
    assert(input.take(0) =~= Seq::<CandidateListView>::empty());
    while i < n
        invariant
            n == v@.len(),
            0 <= i <= n,
            input == crate::table::views(v@),
            crate::table::views(r@).to_multiset() == input.take(i as int).to_multiset(),
            lists_sorted(crate::table::views(r@)),
        decreases n - i,
    {
        let x = v[i].clone();
        let ghost rv = crate::table::views(r@);
        let m = r.len();
        let mut p: usize = 0;
        while p < m && !is_list_before(&x, &r[p])
            invariant
                m == r@.len(),
                0 <= p <= m,
                rv == crate::table::views(r@),
                forall|q: int| 0 <= q < p ==> !list_before(x@, #[trigger] rv[q]),
            decreases m - p,
        {
            p = p + 1;
        }
        let ghost before = r@;
        r.insert(p, x);
        assert(crate::table::views(r@) =~= rv.insert(p as int, x@));
        proof {
            let s = crate::table::views(r@);
            assert(lists_sorted(s)) by {
                assert forall|a: int, b: int| 0 <= a < b < s.len() implies !list_before(#[trigger] s[b], #[trigger] s[a]) by {
                    if a < p && b < p {
                        assert(s[a] == rv[a] && s[b] == rv[b]);
                    } else if a < p && b == p {
                        assert(s[a] == rv[a]);
                    } else if a < p && b > p {
                        assert(s[a] == rv[a] && s[b] == rv[b - 1]);
                    } else if a == p {
                        assert(s[b] == rv[b - 1]);
                        assert(list_before(x@, rv[p as int]));
                        if b - 1 > p {
                            assert(!list_before(rv[b - 1], rv[p as int]));
                        }
                    } else {
                        assert(s[a] == rv[a - 1] && s[b] == rv[b - 1]);
                    }
                }
            }
            assert(input.take(i + 1) =~= input.take(i as int).push(input[i as int]));
            assert(input[i as int] == x@);
            vstd::seq_lib::to_multiset_insert(rv, p as int, x@);
            vstd::seq_lib::to_multiset_build(input.take(i as int), x@);
        }
        i = i + 1;
    }
    assert(input.take(n as int) =~= input);
    r
}

} // verus!

verus! {

/// `s` without any occurrence of `p`, order kept.
pub open spec fn without_person(s: Seq<PersonId>, p: PersonId) -> Seq<PersonId>
    decreases s.len(),
{
    if s.len() == 0 {
        s
    } else if s.last() == p {
        without_person(s.drop_last(), p)
    } else {
        without_person(s.drop_last(), p).push(s.last())
    }
}

/// Taking `p` out of `s` leaves no `p` and every other identifier of `s`.
pub proof fn lemma_without_person(s: Seq<PersonId>, p: PersonId)
    ensures
        !without_person(s, p).contains(p),
        forall|x: PersonId| x != p ==> (#[trigger] without_person(s, p).contains(x) == s.contains(x)),
    decreases s.len(),
{
    if s.len() > 0 {
        let t = s.drop_last();
        lemma_without_person(t, p);
        let w = without_person(t, p);
        assert forall|x: PersonId| s.contains(x) == (t.contains(x) || s.last() == x) by {
            if s.contains(x) {
                let i = choose|i: int| 0 <= i < s.len() && s[i] == x;
                if i < s.len() - 1 {
                    assert(t[i] == x);
                }
            }
            if t.contains(x) {
                let i = choose|i: int| 0 <= i < t.len() && t[i] == x;
                assert(s[i] == x);
            }
            if s.last() == x {
                assert(s[s.len() - 1] == x);
            }
        }
        assert forall|x: PersonId| w.push(s.last()).contains(x) == (w.contains(x) || s.last() == x) by {
            let u = w.push(s.last());
            if u.contains(x) {
                let i = choose|i: int| 0 <= i < u.len() && u[i] == x;
                if i < w.len() {
                    assert(w[i] == x);
                }
            }
            if w.contains(x) {
                let i = choose|i: int| 0 <= i < w.len() && w[i] == x;
                assert(u[i] == x);
            }
            if s.last() == x {
                assert(u[w.len() as int] == x);
            }
        }
        assert forall|x: PersonId| x != p implies #[trigger] without_person(s, p).contains(x) == s.contains(x) by {
            assert(w.contains(x) == t.contains(x));
        }
    }
}

/// Every identifier of `s` is a key of `persons`.
pub open spec fn all_known(s: Seq<PersonId>, persons: Map<u128, Person>) -> bool {
    forall|i: int| 0 <= i < s.len() ==> persons.contains_key(#[trigger] s[i].0)
}

/// `f` is list `l` with its candidates looked up in `persons`, position i + 1 for the
/// i-th identifier.
pub open spec fn is_full_list(f: FullCandidateList, l: CandidateListView, persons: Map<u128, Person>) -> bool {
    &&& f.list@ == l
    &&& f.candidates@.len() == l.candidates.len()
    &&& forall|i: int| 0 <= i < f.candidates@.len() ==> {
        &&& (#[trigger] f.candidates@[i]).list_id == l.id
        &&& f.candidates@[i].position == i + 1
        &&& f.candidates@[i].person == persons[l.candidates[i].0]
    }
}

/// The persons of `s` whose identifier is not in `c`, order kept.
pub open spec fn persons_not_in(s: Seq<Person>, c: Seq<PersonId>) -> Seq<Person>
    decreases s.len(),
{
    if s.len() == 0 {
        s
    } else if c.contains(s.last().id) {
        persons_not_in(s.drop_last(), c)
    } else {
        persons_not_in(s.drop_last(), c).push(s.last())
    }
}

/// How often `d` occurs in `ds`.
pub open spec fn count_in(ds: Seq<ElectoralDistrict>, d: ElectoralDistrict) -> nat
    decreases ds.len(),
{
    if ds.len() == 0 {
        0
    } else {
        count_in(ds.drop_last(), d) + if ds.last() == d { 1nat } else { 0nat }
    }
}

/// How often `d` occurs over the districts of all lists of `ls`.
pub open spec fn occurrences(ls: Seq<CandidateListView>, d: ElectoralDistrict) -> nat
    decreases ls.len(),
{
    if ls.len() == 0 {
        0
    } else {
        occurrences(ls.drop_last(), d) + count_in(ls.last().electoral_districts, d)
    }
}

/// The districts of `ds`, order kept, that occur more than once over the lists `ls`.
pub open spec fn shared_districts(ds: Seq<ElectoralDistrict>, ls: Seq<CandidateListView>) -> Seq<ElectoralDistrict>
    decreases ds.len(),
{
    if ds.len() == 0 {
        ds
    } else if occurrences(ls, ds.last()) > 1 {
        shared_districts(ds.drop_last(), ls).push(ds.last())
    } else {
        shared_districts(ds.drop_last(), ls)
    }
}

/// Some list of `ls` whose identifier is not in `exclude` has district `d`.
pub open spec fn district_in_use(ls: Seq<CandidateListView>, exclude: Seq<CandidateListId>, d: ElectoralDistrict) -> bool {
    exists|i: int| 0 <= i < ls.len() && !exclude.contains(ls[i].id) && (#[trigger] ls[i]).electoral_districts.contains(d)
}

/// The districts of `ds`, order kept, that are in use by a list of `ls` not excluded.
pub open spec fn districts_in_use(ds: Seq<ElectoralDistrict>, ls: Seq<CandidateListView>, exclude: Seq<CandidateListId>) -> Seq<ElectoralDistrict>
    decreases ds.len(),
{
    if ds.len() == 0 {
        ds
    } else if district_in_use(ls, exclude, ds.last()) {
        districts_in_use(ds.drop_last(), ls, exclude).push(ds.last())
    } else {
        districts_in_use(ds.drop_last(), ls, exclude)
    }
}

/// The list `l` with candidates `c` and update time `t`.
pub open spec fn with_candidates(l: CandidateListView, c: Seq<PersonId>, t: Timestamp) -> CandidateListView {
    CandidateListView { candidates: c, updated_at: t, ..l }
}

/// The elements of `v` other than `p`, in order.
pub fn remove_person_id(v: &Vec<PersonId>, p: PersonId) -> (r: Vec<PersonId>)
    ensures
        r@ == without_person(v@, p),
        r@ == v@.filter(|x: PersonId| x != p),
{
    let mut r: Vec<PersonId> = Vec::new();
    let n = v.len();
    let mut i: usize = 0;
    while i < n
        invariant
            n == v@.len(),
            0 <= i <= n,
            r@ == without_person(v@.subrange(0, i as int), p),
        decreases n - i,
    {
        assert(v@.subrange(0, i + 1).drop_last() =~= v@.subrange(0, i as int));
        if v[i] != p {
            r.push(v[i]);
        }
        i = i + 1;
    }
    assert(v@.subrange(0, n as int) =~= v@);
    proof {
        law_without_person_keeps_order(v@, p);
    }
    r
}

/// How often `d` occurs in `ds`.
pub fn count_district(ds: &Vec<ElectoralDistrict>, d: ElectoralDistrict) -> (n: usize)
    ensures
        n == count_in(ds@, d),
{
    let len = ds.len();
    let mut n: usize = 0;
    let mut i: usize = 0;
    while i < len
        invariant
            len == ds@.len(),
            0 <= i <= len,
            n == count_in(ds@.subrange(0, i as int), d),
            n <= i,
        decreases len - i,
    {
        assert(ds@.subrange(0, i + 1).drop_last() =~= ds@.subrange(0, i as int));
        if ds[i] == d {
            n = n + 1;
        }
        i = i + 1;
    }
    assert(ds@.subrange(0, len as int) =~= ds@);
    n
}

/// Whether `d` occurs in `ds`.
pub fn has_district(ds: &Vec<ElectoralDistrict>, d: ElectoralDistrict) -> (b: bool)
    ensures
        b == ds@.contains(d),
{
    let len = ds.len();
    let mut i: usize = 0;
    while i < len
        invariant
            len == ds@.len(),
            0 <= i <= len,
            forall|j: int| 0 <= j < i ==> ds@[j] != d,
        decreases len - i,
    {
        if ds[i] == d {
            assert(ds@[i as int] == d);
            return true;
        }
        i = i + 1;
    }
    false
}

} // verus!

verus! {

/// Taking a person off a list keeps every other candidate, in the original order: the
/// result is the candidates other than `p`, filtered in order.
pub proof fn law_without_person_keeps_order(s: Seq<PersonId>, p: PersonId)
    ensures
        without_person(s, p) == s.filter(|x: PersonId| x != p),
        !s.contains(p) ==> without_person(s, p) == s,
    decreases s.len(),
{
    reveal(Seq::filter);
    if s.len() > 0 {
        law_without_person_keeps_order(s.drop_last(), p);
        if !s.contains(p) {
            assert(!s.drop_last().contains(p)) by {
                if s.drop_last().contains(p) {
                    let i = choose|i: int| 0 <= i < s.drop_last().len() && s.drop_last()[i] == p;
                    assert(s[i] == p);
                }
            }
            assert(s.last() != p) by {
                assert(s[s.len() - 1] == s.last());
            }
            assert(s.drop_last().push(s.last()) =~= s);
        }
    } else {
        assert(s.filter(|x: PersonId| x != p) =~= s);
    }
}

/// The persons not on a list are the stored persons, in the store's order, whose
/// identifier is not among the list's candidates.
pub proof fn law_persons_not_in_filters(s: Seq<Person>, c: Seq<PersonId>)
    ensures
        persons_not_in(s, c) == s.filter(|q: Person| !c.contains(q.id)),
        forall|i: int| 0 <= i < persons_not_in(s, c).len() ==> !c.contains(#[trigger] persons_not_in(s, c)[i].id),
        forall|i: int| 0 <= i < s.len() && !c.contains(s[i].id) ==> persons_not_in(s, c).contains(#[trigger] s[i]),
    decreases s.len(),
{
    reveal(Seq::filter);
    broadcast use vstd::seq_lib::group_filter_ensures;

    if s.len() > 0 {
        law_persons_not_in_filters(s.drop_last(), c);
    } else {
        assert(s.filter(|q: Person| !c.contains(q.id)) =~= s);
    }
    let f = s.filter(|q: Person| !c.contains(q.id));
    assert forall|i: int| 0 <= i < f.len() implies !c.contains(#[trigger] f[i].id) by {
        s.lemma_filter_pred(|q: Person| !c.contains(q.id), i);
    }
    assert forall|i: int| 0 <= i < s.len() && !c.contains(s[i].id) implies f.contains(#[trigger] s[i]) by {
        s.lemma_filter_contains(|q: Person| !c.contains(q.id), i);
    }
}

/// `count_in` counts: no occurrence means absent, and two or more mean two distinct
/// positions hold the district.
pub proof fn lemma_count_in(ds: Seq<ElectoralDistrict>, d: ElectoralDistrict)
    ensures
        (count_in(ds, d) == 0) == !ds.contains(d),
        (count_in(ds, d) >= 2) == (exists|a: int, b: int| 0 <= a < b < ds.len() && ds[a] == d && ds[b] == d),
    decreases ds.len(),
{
    if ds.len() > 0 {
        let t = ds.drop_last();
        lemma_count_in(t, d);
        assert forall|x: ElectoralDistrict| ds.contains(x) == (t.contains(x) || ds.last() == x) by {
            if ds.contains(x) {
                let i = choose|i: int| 0 <= i < ds.len() && ds[i] == x;
                if i < ds.len() - 1 {
                    assert(t[i] == x);
                }
            }
            if t.contains(x) {
                let i = choose|i: int| 0 <= i < t.len() && t[i] == x;
                assert(ds[i] == x);
            }
        }
        let two = exists|a: int, b: int| 0 <= a < b < ds.len() && ds[a] == d && ds[b] == d;
        let two_t = exists|a: int, b: int| 0 <= a < b < t.len() && t[a] == d && t[b] == d;
        if two_t {
            let (a, b) = choose|a: int, b: int| 0 <= a < b < t.len() && t[a] == d && t[b] == d;
            assert(ds[a] == d && ds[b] == d);
        }
        if t.contains(d) && ds.last() == d {
            let a = choose|a: int| 0 <= a < t.len() && t[a] == d;
            assert(ds[a] == d && ds[ds.len() - 1] == d);
        }
        if two {
            let (a, b) = choose|a: int, b: int| 0 <= a < b < ds.len() && ds[a] == d && ds[b] == d;
            if b < ds.len() - 1 {
                assert(t[a] == d && t[b] == d);
            } else {
                assert(t[a] == d);
                assert(t.contains(d));
            }
        }
    }
}

/// The occurrences over all lists are those of one list plus those of the others.
pub proof fn lemma_occurrences_split(ls: Seq<CandidateListView>, i: int, d: ElectoralDistrict)
    requires
        0 <= i < ls.len(),
    ensures
        occurrences(ls, d) == count_in(ls[i].electoral_districts, d) + occurrences(ls.remove(i), d),
    decreases ls.len(),
{
    if i == ls.len() - 1 {
        assert(ls.remove(i) =~= ls.drop_last());
    } else {
        lemma_occurrences_split(ls.drop_last(), i, d);
        let r = ls.remove(i);
        assert(r.drop_last() =~= ls.drop_last().remove(i));
        assert(r.last() == ls.last());
        assert(ls.drop_last()[i] == ls[i]);
    }
}

/// No occurrence over the lists means no list has the district.
pub proof fn lemma_occurrences_zero(ls: Seq<CandidateListView>, d: ElectoralDistrict)
    ensures
        (occurrences(ls, d) == 0) == (forall|j: int| 0 <= j < ls.len() ==> !(#[trigger] ls[j]).electoral_districts.contains(d)),
    decreases ls.len(),
{
    if ls.len() > 0 {
        lemma_occurrences_zero(ls.drop_last(), d);
        lemma_count_in(ls.last().electoral_districts, d);
        if occurrences(ls, d) == 0 {
            assert forall|j: int| 0 <= j < ls.len() implies !(#[trigger] ls[j]).electoral_districts.contains(d) by {
                if j < ls.len() - 1 {
                    assert(ls.drop_last()[j] == ls[j]);
                }
            }
        } else {
            if occurrences(ls.drop_last(), d) > 0 {
                let j = choose|j: int| 0 <= j < ls.drop_last().len() && (#[trigger] ls.drop_last()[j]).electoral_districts.contains(d);
                assert(ls[j] == ls.drop_last()[j]);
            } else {
                assert(ls[ls.len() - 1] == ls.last());
            }
        }
    }
}

/// What a filter keeps comes from the sequence and meets the predicate.
pub proof fn lemma_filter_members<A>(s: Seq<A>, pred: spec_fn(A) -> bool, x: A)
    ensures
        s.filter(pred).contains(x) ==> s.contains(x) && pred(x),
    decreases s.len(),
{
    reveal(Seq::filter);
    if s.len() > 0 && s.filter(pred).contains(x) {
        let t = s.drop_last();
        lemma_filter_members(t, pred, x);
        let f = s.filter(pred);
        let k = choose|k: int| 0 <= k < f.len() && f[k] == x;
        if k < t.filter(pred).len() {
            assert(t.filter(pred)[k] == x);
            let i = choose|i: int| 0 <= i < t.len() && t[i] == x;
            assert(s[i] == x);
        } else {
            assert(x == s.last());
            assert(s[s.len() - 1] == x);
        }
    }
}

/// A district of a list is among its shared districts exactly when another list has it
/// too, or the list has it twice: more than one occurrence over all lists.
pub proof fn law_shared_districts(ls: Seq<CandidateListView>, i: int, d: ElectoralDistrict)
    requires
        0 <= i < ls.len(),
    ensures
        shared_districts(ls[i].electoral_districts, ls).contains(d) == (ls[i].electoral_districts.contains(d) && (
            (exists|j: int| 0 <= j < ls.len() && j != i && (#[trigger] ls[j]).electoral_districts.contains(d))
            || (exists|a: int, b: int| 0 <= a < b < ls[i].electoral_districts.len()
                && ls[i].electoral_districts[a] == d && ls[i].electoral_districts[b] == d))),
{
    let ds = ls[i].electoral_districts;
    law_shared_districts_filter(ds, ls);
    reveal(Seq::filter);
    broadcast use vstd::seq_lib::group_filter_ensures;

    let f = ds.filter(|x: ElectoralDistrict| occurrences(ls, x) > 1);
    if f.contains(d) {
        let k = choose|k: int| 0 <= k < f.len() && f[k] == d;
        ds.lemma_filter_pred(|x: ElectoralDistrict| occurrences(ls, x) > 1, k);
        lemma_filter_members(ds, |x: ElectoralDistrict| occurrences(ls, x) > 1, d);
    }
    lemma_occurrences_split(ls, i, d);
    lemma_occurrences_zero(ls.remove(i), d);
    lemma_count_in(ds, d);
    let rest = ls.remove(i);
    assert forall|j: int| 0 <= j < rest.len() implies #[trigger] rest[j] == ls[if j < i { j } else { j + 1 }] by {}
    if ds.contains(d) {
        let k = choose|k: int| 0 <= k < ds.len() && ds[k] == d;
        if occurrences(ls, d) > 1 {
            ds.lemma_filter_contains(|x: ElectoralDistrict| occurrences(ls, x) > 1, k);
            if occurrences(rest, d) > 0 {
                let j = choose|j: int| 0 <= j < rest.len() && !!(#[trigger] rest[j]).electoral_districts.contains(d);
                let jj = if j < i { j } else { j + 1 };
                assert(ls[jj].electoral_districts.contains(d));
            }
        } else {
            if exists|j: int| 0 <= j < ls.len() && j != i && (#[trigger] ls[j]).electoral_districts.contains(d) {
                let j = choose|j: int| 0 <= j < ls.len() && j != i && (#[trigger] ls[j]).electoral_districts.contains(d);
                let jr = if j < i { j } else { j - 1 };
                assert(rest[jr] == ls[j]);
            }
        }
    }
}

/// The shared districts of `ds` are the districts of `ds`, in order, that occur more than
/// once over all lists.
pub proof fn law_shared_districts_filter(ds: Seq<ElectoralDistrict>, ls: Seq<CandidateListView>)
    ensures
        shared_districts(ds, ls) == ds.filter(|x: ElectoralDistrict| occurrences(ls, x) > 1),
    decreases ds.len(),
{
    reveal(Seq::filter);
    if ds.len() > 0 {
        law_shared_districts_filter(ds.drop_last(), ls);
    } else {
        assert(ds.filter(|x: ElectoralDistrict| occurrences(ls, x) > 1) =~= ds);
    }
}

/// Adding a list never takes a district out of the shared districts of `ds`: what was
/// shared over `ls` stays shared over `ls` with one more list.
pub proof fn law_shared_districts_grow(ds: Seq<ElectoralDistrict>, ls: Seq<CandidateListView>, l: CandidateListView)
    ensures
        forall|d: ElectoralDistrict| shared_districts(ds, ls).contains(d) ==> #[trigger] shared_districts(ds, ls.push(l)).contains(d),
{
    law_shared_districts_filter(ds, ls);
    law_shared_districts_filter(ds, ls.push(l));
    assert(ls.push(l).drop_last() =~= ls);
    assert forall|d: ElectoralDistrict| shared_districts(ds, ls).contains(d) implies #[trigger] shared_districts(ds, ls.push(l)).contains(d) by {
        lemma_filter_members(ds, |x: ElectoralDistrict| occurrences(ls, x) > 1, d);
        lemma_filter_members(ds, |x: ElectoralDistrict| occurrences(ls.push(l), x) > 1, d);
    }
}

/// The districts in use are the districts of `ds`, in order, that some list not excluded
/// has.
pub proof fn law_districts_in_use_filter(ds: Seq<ElectoralDistrict>, ls: Seq<CandidateListView>, exclude: Seq<CandidateListId>)
    ensures
        districts_in_use(ds, ls, exclude) == ds.filter(|x: ElectoralDistrict| exists|i: int|
            0 <= i < ls.len() && !exclude.contains(ls[i].id) && (#[trigger] ls[i]).electoral_districts.contains(x)),
    decreases ds.len(),
{
    reveal(Seq::filter);
    if ds.len() > 0 {
        law_districts_in_use_filter(ds.drop_last(), ls, exclude);
    } else {
        assert(ds.filter(|x: ElectoralDistrict| exists|i: int|
            0 <= i < ls.len() && !exclude.contains(ls[i].id) && (#[trigger] ls[i]).electoral_districts.contains(x)) =~= ds);
    }
}

/// In the store's order of lists, creation times never go back, and lists created at the
/// same instant come in rising identifier order.
pub proof fn law_lists_in_creation_order(s: Seq<CandidateListView>)
    requires
        lists_sorted(s),
        crate::table::unique_keys::<CandidateList>(s),
    ensures
        forall|i: int, j: int| 0 <= i < j < s.len() ==> {
            ||| (#[trigger] s[i]).created_at.secs < (#[trigger] s[j]).created_at.secs
            ||| (s[i].created_at.secs == s[j].created_at.secs && s[i].created_at.nanos < s[j].created_at.nanos)
            ||| (s[i].created_at == s[j].created_at && s[i].id.0 < s[j].id.0)
        },
{
    assert forall|i: int, j: int| 0 <= i < j < s.len() implies {
        ||| (#[trigger] s[i]).created_at.secs < (#[trigger] s[j]).created_at.secs
        ||| (s[i].created_at.secs == s[j].created_at.secs && s[i].created_at.nanos < s[j].created_at.nanos)
        ||| (s[i].created_at == s[j].created_at && s[i].id.0 < s[j].id.0)
    } by {
        assert(!list_before(s[j], s[i]));
        assert(<CandidateList as Keyed>::key_of(s[i]) != <CandidateList as Keyed>::key_of(s[j]));
    }
}

} // verus!
