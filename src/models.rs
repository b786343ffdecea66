use vstd::prelude::*;

verus! {

/// One row of the `bloom_users` table: a numeric primary key and two text columns.
#[derive(Debug, Clone)]
pub struct BloomUser {
    pub id: i32,
    pub name: String,
    pub email: String,
}

/// The row carries the identifier `id`.
pub open spec fn has_id(u: BloomUser, id: int) -> bool {
    u.id as int == id
}

/// The row's name is exactly `name`.
pub open spec fn has_name(u: BloomUser, name: Seq<char>) -> bool {
    u.name@ == name
}

/// Some row of `rows` carries the identifier `id`.
pub open spec fn holds_id(rows: Seq<BloomUser>, id: int) -> bool {
    exists|k: int| 0 <= k < rows.len() && has_id(#[trigger] rows[k], id)
}

/// `u` is the first row of `rows`, in storage order, that carries `id`.
pub open spec fn is_first_with_id(rows: Seq<BloomUser>, id: int, u: BloomUser) -> bool {
    exists|k: int|
        0 <= k < rows.len() && #[trigger] rows[k] == u && has_id(u, id) && forall|j: int|
            0 <= j < k ==> !has_id(#[trigger] rows[j], id)
}

/// The test that a row's name is exactly `name`.
pub open spec fn named(name: Seq<char>) -> spec_fn(BloomUser) -> bool {
    |u: BloomUser| has_name(u, name)
}

/// The rows of `rows` whose name is exactly `name`, in storage order.
pub open spec fn rows_named(rows: Seq<BloomUser>, name: Seq<char>) -> Seq<BloomUser> {
    rows.filter(named(name))
}

/// When every row the store returned has the name asked for, the name lookup
/// keeps all of them, in the store's order.
pub proof fn lemma_matching_rows_kept_in_order(rows: Seq<BloomUser>, name: Seq<char>)
    requires
        forall|k: int| 0 <= k < rows.len() ==> has_name(#[trigger] rows[k], name),
    ensures
        rows_named(rows, name) == rows,
    decreases rows.len(),
{
    if rows.len() > 0 {
        let init = rows.drop_last();
        assert forall|k: int| 0 <= k < init.len() implies has_name(#[trigger] init[k], name) by {
            assert(init[k] == rows[k]);
        }
        lemma_matching_rows_kept_in_order(init, name);
        init.lemma_filter_push(rows.last(), named(name));
        assert(init.push(rows.last()) =~= rows);
    }
}

impl BloomUser {
    /// A field-by-field copy of the row.
    pub fn duplicate(&self) -> (r: BloomUser)
        ensures
            r == *self,
    {
        BloomUser { id: self.id, name: self.name.clone(), email: self.email.clone() }
    }
}

/// The repository of `BloomUser` rows. It holds no data and no connection: each
/// lookup is handed the rows that the store returned for its query, in the
/// store's order, or the store's error.
pub struct UserRepository;

impl UserRepository {
    /// The row with identifier `id`, or `None` when the store has none; the
    /// store's error is passed on unchanged.
    pub fn find_by_id<E>(fetched: Result<Vec<BloomUser>, E>, id: i64) -> (r: Result<
        Option<BloomUser>,
        E,
    >)
        ensures
            fetched is Err <==> r is Err,
            fetched is Err ==> r->Err_0 == fetched->Err_0,
            fetched is Ok ==> (r->Ok_0 is None <==> !holds_id(fetched->Ok_0@, id as int)),
            fetched is Ok && r->Ok_0 is Some ==> is_first_with_id(
                fetched->Ok_0@,
                id as int,
                r->Ok_0->0,
            ),
    {
        match fetched {
            Err(e) => Err(e),
            Ok(rows) => {
                let mut i: usize = 0;
                while i < rows.len()
                    invariant
                        0 <= i <= rows@.len(),
                        fetched is Ok && fetched->Ok_0 == rows,
                        forall|j: int| 0 <= j < i ==> !has_id(#[trigger] rows@[j], id as int),
                    decreases rows@.len() - i,
                {
                    if rows[i].id as i64 == id {
                        return Ok(Some(rows[i].duplicate()));
                    }
                    i = i + 1;
                }
                Ok(None)
            },
        }
    }

    /// Every row whose name is exactly `name`, in the store's order; an empty
    /// sequence when none matches. The store's error is passed on unchanged.
    pub fn find_by_name<E>(fetched: Result<Vec<BloomUser>, E>, name: String) -> (r: Result<
        Vec<BloomUser>,
        E,
    >)
        ensures
            fetched is Err <==> r is Err,
            fetched is Err ==> r->Err_0 == fetched->Err_0,
            fetched is Ok ==> r->Ok_0@ == rows_named(fetched->Ok_0@, name@),
            fetched is Ok ==> forall|k: int|
                0 <= k < fetched->Ok_0@.len() && has_name(fetched->Ok_0@[k], name@)
                    ==> r->Ok_0@.contains(#[trigger] fetched->Ok_0@[k]),
            fetched is Ok ==> forall|k: int|
                0 <= k < r->Ok_0@.len() ==> has_name(#[trigger] r->Ok_0@[k], name@),
            fetched is Ok && (forall|k: int|
                0 <= k < fetched->Ok_0@.len() ==> !has_name(#[trigger] fetched->Ok_0@[k], name@))
                ==> r->Ok_0@.len() == 0,
    {
        broadcast use vstd::seq_lib::group_filter_ensures;

        match fetched {
            Err(e) => Err(e),
            Ok(rows) => {
                let ghost pred = named(name@);
                let mut out: Vec<BloomUser> = Vec::new();
                let mut i: usize = 0;
                while i < rows.len()
                    invariant
                        0 <= i <= rows@.len(),
                        pred == named(name@),
                        out@ == rows@.subrange(0, i as int).filter(pred),
                    decreases rows@.len() - i,
                {
                    assert(rows@.subrange(0, i + 1) =~= rows@.subrange(0, i as int).push(
                        rows@[i as int],
                    ));
                    proof {
                        rows@.subrange(0, i as int).lemma_filter_push(rows@[i as int], pred);
                    }
                    if rows[i].name == name {
                        out.push(rows[i].duplicate());
                    }
                    i = i + 1;
                }
                assert(rows@.subrange(0, rows@.len() as int) =~= rows@);
                proof {
                    assert forall|k: int|
                        0 <= k < rows@.len() && has_name(rows@[k], name@) implies out@.contains(
                        #[trigger] rows@[k],
                    ) by {
                        rows@.lemma_filter_contains(pred, k);
                    }
                    if forall|k: int| 0 <= k < rows@.len() ==> !has_name(#[trigger] rows@[k], name@) {
                        if out@.len() > 0 {
                            rows@.lemma_filter_contains_rev(pred, out@[0]);
                        }
                    }
                }
                Ok(out)
            },
        }
    }
}

} // verus!
