//! Topic tables: the declarations `Enum::Variant => Type` that bind each
//! topic of a topic enum to its data type. All entries of one table must
//! name topics of one enum.
use vstd::prelude::*;

verus! {

/// The texts of a sequence of strings.
pub open spec fn texts(s: Seq<String>) -> Seq<Seq<char>> {
    s.map_values(|x: String| x@)
}

/// `names` lists, once each, exactly the texts that occur in `all`.
pub open spec fn distinct_of(all: Seq<Seq<char>>, names: Seq<Seq<char>>) -> bool {
    &&& forall|x: Seq<char>| #[trigger] names.contains(x) ==> all.contains(x)
    &&& forall|x: Seq<char>| #[trigger] all.contains(x) ==> names.contains(x)
    &&& names.no_duplicates()
}

/// The topic enum of a table, given the enum name that begins the topic
/// path of each entry: that name when every entry has the same one.
/// Otherwise the distinct names, each once: none for an
/// empty table, at least two when the entries mix enums.
pub fn topic_enum(enum_names: &Vec<String>) -> (r: Result<String, Vec<String>>)
    ensures
        match r {
            Ok(name) => enum_names@.len() > 0
                && forall|i: int| 0 <= i < enum_names@.len() ==> (#[trigger] enum_names@[i])@ == name@,
            Err(names) => distinct_of(texts(enum_names@), texts(names@)) && names@.len() != 1,
        },
{
    let ghost all = texts(enum_names@);
    let mut names: Vec<String> = Vec::new();
    let mut j: usize = 0;
    proof { assert(texts(names@) =~= Seq::<Seq<char>>::empty()); }
    while j < enum_names.len()
        invariant
            all == texts(enum_names@),
            j <= enum_names@.len(),
            distinct_of(all.subrange(0, j as int), texts(names@)),
        decreases enum_names@.len() - j,
    {
        let ghost before = texts(names@);
        let mut seen = false;
        let mut i: usize = 0;
        while i < names.len()
            invariant
                all == texts(enum_names@),
                before == texts(names@),
                i <= names@.len(),
                j < enum_names@.len(),
                seen <==> before.subrange(0, i as int).contains(all[j as int]),
            decreases names@.len() - i,
        {
            proof {
                assert(before.subrange(0, i + 1) =~= before.subrange(0, i as int).push(before[i as int]));
            }
            let same = names[i] == enum_names[j];
            proof {
                assert(before[i as int] == names@[i as int]@);
                assert(all[j as int] == enum_names@[j as int]@);
                let next = before.subrange(0, i + 1);
                if same {
                    assert(next[i as int] == all[j as int]);
                }
                if next.contains(all[j as int]) && !same {
                    let q = choose|q: int| 0 <= q < next.len() && next[q] == all[j as int];
                    assert(before.subrange(0, i as int)[q] == all[j as int]);
                }
            }
            if same {
                seen = true;
            }
            i = i + 1;
        }
        proof {
            assert(before.subrange(0, names@.len() as int) =~= before);
            assert(all.subrange(0, j + 1) =~= all.subrange(0, j as int).push(all[j as int]));
        }
        if !seen {
            names.push(enum_names[j].clone());
            proof {
                assert(texts(names@) =~= before.push(all[j as int]));
                assert forall|x: Seq<char>| #[trigger] texts(names@).contains(x) implies
                    all.subrange(0, j + 1).contains(x) by {
                    if x != all[j as int] {
                        assert(before.contains(x));
                    } else {
                        assert(all.subrange(0, j + 1)[j as int] == x);
                    }
                }
                assert forall|x: Seq<char>| #[trigger] all.subrange(0, j + 1).contains(x) implies
                    texts(names@).contains(x) by {
                    if x != all[j as int] {
                        assert(all.subrange(0, j as int).contains(x));
                        let q = choose|q: int| 0 <= q < before.len() && before[q] == x;
                        assert(texts(names@)[q] == x);
                    } else {
                        assert(texts(names@)[before.len() as int] == x);
                    }
                }
            }
        } else {
            proof {
                assert forall|x: Seq<char>| #[trigger] all.subrange(0, j + 1).contains(x) implies
                    texts(names@).contains(x) by {
                    if x != all[j as int] {
                        assert(all.subrange(0, j as int).contains(x));
                    }
                }
                assert forall|x: Seq<char>| #[trigger] texts(names@).contains(x) implies
                    all.subrange(0, j + 1).contains(x) by {
                    assert(all.subrange(0, j as int).contains(x));
                    let q = choose|q: int| 0 <= q < j && all.subrange(0, j as int)[q] == x;
                    assert(all.subrange(0, j + 1)[q] == x);
                }
            }
        }
        j = j + 1;
    }
    proof { assert(all.subrange(0, j as int) =~= all); }
    if names.len() == 1 {
        let name = names[0].clone();
        proof {
            assert(texts(names@)[0] == name@);
            assert(texts(names@).contains(name@));
            assert forall|i: int| 0 <= i < enum_names@.len() implies (#[trigger] enum_names@[i])@ == name@ by {
                assert(all[i] == enum_names@[i]@);
                assert(all.contains(all[i]));
                assert(texts(names@).contains(all[i]));
            }
        }
        Ok(name)
    } else {
        Err(names)
    }
}

} // verus!
