//! The addresses of the service's endpoints.
//!
//! An address is built by plain concatenation: the base, then each segment
//! after a `/`. Segments are not escaped, so a segment that holds a `/` or
//! another reserved character passes into the address as it is.
use vstd::prelude::*;
use vstd::string::StringExecFns;

verus! {

/// `base`, then `/` and each segment in turn.
pub open spec fn joined(base: Seq<char>, segments: Seq<Seq<char>>) -> Seq<char>
    decreases segments.len(),
{
    if segments.len() == 0 {
        base
    } else {
        joined(base, segments.drop_last()) + seq!['/'] + segments.last()
    }
}

/// Builds the address `base/segment/segment/...`.
pub fn build_url(base: &str, segments: &[&str]) -> (r: String)
    ensures
        r@ == joined(base@, segments@.map_values(|s: &str| s@)),
{
    let mut url = String::from_str(base);
    let mut i: usize = 0;
    assert(segments@.map_values(|s: &str| s@).take(0) =~= Seq::<Seq<char>>::empty());
    while i < segments.len()
        invariant
            0 <= i <= segments@.len(),
            url@ == joined(base@, segments@.map_values(|s: &str| s@).take(i as int)),
        decreases segments@.len() - i,
    {
        let ghost segs = segments@.map_values(|s: &str| s@);
        assert(segs.take(i as int + 1).drop_last() =~= segs.take(i as int));
        proof {
            reveal_strlit("/");
        }
        url.append("/");
        url.append(segments[i]);
        i = i + 1;
    }
    assert(segments@.map_values(|s: &str| s@).take(i as int) =~= segments@.map_values(|s: &str| s@));
    url
}

/// The address of the list of schools.
pub fn schools_url(base: &str) -> (r: String)
    ensures
        r@ == base@ + "/schools"@,
{
    let segments: Vec<&str> = vec!["schools"];
    let r = build_url(base, segments.as_slice());
    proof {
        reveal_strlit("schools");
        reveal_strlit("/schools");
        let segs = segments@.map_values(|s: &str| s@);
        assert(segments@.len() == 1);
        assert(segs.last() == "schools"@);
        assert(segs.drop_last() =~= Seq::<Seq<char>>::empty());
        assert(joined(base@, segs.drop_last()) == base@);
        assert(r@ =~= base@ + "/schools"@);
    }
    r
}

/// The address of a school's list of classes.
pub fn classes_url(base: &str, school_id: &str) -> (r: String)
    ensures
        r@ == base@ + "/school/"@ + school_id@ + "/classes"@,
{
    let segments: Vec<&str> = vec!["school", school_id, "classes"];
    let r = build_url(base, segments.as_slice());
    proof {
        reveal_strlit("school");
        reveal_strlit("classes");
        reveal_strlit("/school/");
        reveal_strlit("/classes");
        lemma_joined_three(base@, segments@.map_values(|s: &str| s@));
        assert(r@ =~= base@ + "/school/"@ + school_id@ + "/classes"@);
    }
    r
}

/// The address of a class's schedule.
pub fn schedule_url(base: &str, school_id: &str, class_id: &str) -> (r: String)
    ensures
        r@ == base@ + "/school/"@ + school_id@ + "/class/"@ + class_id@,
{
    let segments: Vec<&str> = vec!["school", school_id, "class", class_id];
    let r = build_url(base, segments.as_slice());
    proof {
        reveal_strlit("school");
        reveal_strlit("class");
        reveal_strlit("/school/");
        reveal_strlit("/class/");
        let segs = segments@.map_values(|s: &str| s@);
        assert(segs.drop_last().len() == 3);
        lemma_joined_three(base@, segs.drop_last());
        assert(r@ =~= base@ + "/school/"@ + school_id@ + "/class/"@ + class_id@);
    }
    r
}

/// The address to which a registration is posted.
pub fn add_user_url(base: &str) -> (r: String)
    ensures
        r@ == base@ + "/addUser"@,
{
    let segments: Vec<&str> = vec!["addUser"];
    let r = build_url(base, segments.as_slice());
    proof {
        reveal_strlit("addUser");
        reveal_strlit("/addUser");
        let segs = segments@.map_values(|s: &str| s@);
        assert(segs.drop_last() =~= Seq::<Seq<char>>::empty());
        assert(joined(base@, segs.drop_last()) == base@);
        assert(r@ =~= base@ + "/addUser"@);
    }
    r
}

proof fn lemma_joined_three(base: Seq<char>, segs: Seq<Seq<char>>)
    requires
        segs.len() == 3,
    ensures
        joined(base, segs) == base + seq!['/'] + segs[0] + seq!['/'] + segs[1] + seq!['/'] + segs[2],
{
    assert(segs.drop_last().drop_last().drop_last() =~= Seq::<Seq<char>>::empty());
    assert(joined(base, segs.drop_last().drop_last().drop_last()) == base);
    assert(segs.drop_last().drop_last().last() == segs[0]);
    assert(segs.drop_last().last() == segs[1]);
    assert(joined(base, segs.drop_last().drop_last()) == base + seq!['/'] + segs[0]);
    assert(joined(base, segs.drop_last()) == base + seq!['/'] + segs[0] + seq!['/'] + segs[1]);
    assert(joined(base, segs) =~= base + seq!['/'] + segs[0] + seq!['/'] + segs[1] + seq!['/'] + segs[2]);
}

} // verus!
