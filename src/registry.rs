use crate::config::{entries, name_of, same_settings, unique_names, Config, ScrapeConfig};
use vstd::prelude::*;

verus! {

/// Why a change to the job list was refused.
#[derive(Clone, Copy, Debug, PartialEq, Eq, Structural)]
pub enum RegistryError {
    DuplicateName,
    NotFound,
}

/// A job name as an optional string, viewed.
pub open spec fn key_of(n: Option<String>) -> Option<Seq<char>> {
    match n {
        Some(s) => Some(s@),
        None => None,
    }
}

/// Some job of `s` carries the name `n`.
pub open spec fn has_name(s: Seq<ScrapeConfig>, n: Option<Seq<char>>) -> bool {
    exists|i: int| 0 <= i < s.len() && name_of(#[trigger] s[i]) == n
}

/// `i` is the first position of `s` whose job carries the name `n`.
pub open spec fn first_at(s: Seq<ScrapeConfig>, n: Option<Seq<char>>, i: int) -> bool {
    &&& 0 <= i < s.len()
    &&& name_of(s[i]) == n
    &&& forall|j: int| 0 <= j < i ==> name_of(#[trigger] s[j]) != n
}

/// The first position of the name `n` in `s` (meaningful where `has_name(s, n)`).
pub open spec fn position(s: Seq<ScrapeConfig>, n: Option<Seq<char>>) -> int {
    choose|i: int| first_at(s, n, i)
}

/// A name has at most one first position.
pub proof fn lemma_first_at_unique(s: Seq<ScrapeConfig>, n: Option<Seq<char>>, i: int, j: int)
    requires
        first_at(s, n, i),
        first_at(s, n, j),
    ensures
        i == j,
{
    if i < j {
        assert(name_of(s[i]) != n);
    } else if j < i {
        assert(name_of(s[j]) != n);
    }
}

/// Where a first position exists, `position` is it.
pub proof fn lemma_position(s: Seq<ScrapeConfig>, n: Option<Seq<char>>, i: int)
    requires
        first_at(s, n, i),
    ensures
        position(s, n) == i,
{
    assert(first_at(s, n, position(s, n)));
    lemma_first_at_unique(s, n, i, position(s, n));
}

/// Exact comparison of a job's name with a wanted name.
pub fn name_matches(e: &ScrapeConfig, name: &Option<String>) -> (r: bool)
    ensures
        r == (name_of(*e) == key_of(*name)),
{
    match (&e.job_name, name) {
        (Some(a), Some(b)) => {
            let r = a.eq(b);
            proof {
                if !r {
                    assert(name_of(*e)->0 != key_of(*name)->0);
                }
            }
            r
        },
        (None, None) => true,
        _ => false,
    }
}

/// Looks a name up in a list of jobs: the first position that carries it.
pub fn index_in(v: &Vec<ScrapeConfig>, name: &Option<String>) -> (r: Option<usize>)
    ensures
        match r {
            Some(i) => first_at(v@, key_of(*name), i as int),
            None => !has_name(v@, key_of(*name)),
        },
{
    let mut i: usize = 0;
    while i < v.len()
        invariant
            0 <= i <= v@.len(),
            forall|j: int| 0 <= j < i ==> name_of(#[trigger] v@[j]) != key_of(*name),
        decreases v@.len() - i,
    {
        if name_matches(&v[i], name) {
            return Some(i);
        }
        i = i + 1;
    }
    None
}

/// Looks a name up in the job list of a document.
pub fn find_index(doc: &Config, name: &Option<String>) -> (r: Option<usize>)
    ensures
        match r {
            Some(i) => first_at(entries(*doc), key_of(*name), i as int),
            None => !has_name(entries(*doc), key_of(*name)),
        },
{
    match &doc.scrape_configs {
        Some(v) => index_in(v, name),
        None => None,
    }
}

/// The job called `name`, if the document has one.
pub fn find<'a>(doc: &'a Config, name: &String) -> (r: Option<&'a ScrapeConfig>)
    ensures
        has_name(entries(*doc), Some(name@)) ==> r == Some(
            &entries(*doc)[position(entries(*doc), Some(name@))],
        ),
        !has_name(entries(*doc), Some(name@)) ==> r is None,
{
    let key = Some(name.clone());
    let found = find_index(doc, &key);
    match found {
        Some(i) => {
            proof { lemma_position(entries(*doc), Some(name@), i as int); }
            match &doc.scrape_configs {
                Some(v) => Some(&v[i]),
                None => None,
            }
        },
        None => None,
    }
}

/// Appends a job whose name the document does not hold yet.
pub fn add(doc: &mut Config, entry: ScrapeConfig) -> (r: Result<(), RegistryError>)
    ensures
        has_name(entries(*old(doc)), name_of(entry)) ==> r == Err::<(), RegistryError>(
            RegistryError::DuplicateName,
        ) && *final(doc) == *old(doc),
        !has_name(entries(*old(doc)), name_of(entry)) ==> r is Ok && entries(*final(doc))
            == entries(*old(doc)).push(entry) && same_settings(*final(doc), *old(doc)),
{
    let key = entry.job_name.clone();
    proof {
        assert(key_of(key) == name_of(entry));
    }
    if find_index(doc, &key).is_some() {
        return Err(RegistryError::DuplicateName);
    }
    match &mut doc.scrape_configs {
        Some(v) => {
            v.push(entry);
        },
        None => {
            doc.scrape_configs = Some(vec![entry]);
            proof {
                assert(entries(*final(doc)) =~= entries(*old(doc)).push(entry));
            }
        },
    }
    Ok(())
}

/// Puts `entry` in place of the first job that carries its name.
pub fn replace(doc: &mut Config, entry: ScrapeConfig) -> (r: Result<(), RegistryError>)
    ensures
        !has_name(entries(*old(doc)), name_of(entry)) ==> r == Err::<(), RegistryError>(
            RegistryError::NotFound,
        ) && *final(doc) == *old(doc),
        has_name(entries(*old(doc)), name_of(entry)) ==> r is Ok && entries(*final(doc))
            == entries(*old(doc)).update(position(entries(*old(doc)), name_of(entry)), entry)
            && same_settings(*final(doc), *old(doc)),
{
    let key = entry.job_name.clone();
    proof {
        assert(key_of(key) == name_of(entry));
    }
    let found = find_index(doc, &key);
    match found {
        None => Err(RegistryError::NotFound),
        Some(i) => {
            proof {
                lemma_position(entries(*doc), name_of(entry), i as int);
            }
            match &mut doc.scrape_configs {
                Some(v) => {
                    v.set(i, entry);
                },
                None => {},
            }
            Ok(())
        },
    }
}

/// Deletes the first job called `name`, closing the gap.
pub fn remove(doc: &mut Config, name: &String) -> (r: Result<(), RegistryError>)
    ensures
        !has_name(entries(*old(doc)), Some(name@)) ==> r == Err::<(), RegistryError>(
            RegistryError::NotFound,
        ) && *final(doc) == *old(doc),
        has_name(entries(*old(doc)), Some(name@)) ==> r is Ok && entries(*final(doc))
            == entries(*old(doc)).remove(position(entries(*old(doc)), Some(name@)))
            && same_settings(*final(doc), *old(doc)),
{
    let key = Some(name.clone());
    let found = find_index(doc, &key);
    match found {
        None => Err(RegistryError::NotFound),
        Some(i) => {
            proof {
                lemma_position(entries(*doc), Some(name@), i as int);
            }
            match &mut doc.scrape_configs {
                Some(v) => {
                    v.remove(i);
                },
                None => {},
            }
            Ok(())
        },
    }
}

/// After appending a job whose name was absent, looking that name up
/// yields exactly the appended job.
pub proof fn law_add_then_find(s: Seq<ScrapeConfig>, e: ScrapeConfig)
    requires
        !has_name(s, name_of(e)),
    ensures
        has_name(s.push(e), name_of(e)),
        position(s.push(e), name_of(e)) == s.len(),
        s.push(e)[position(s.push(e), name_of(e))] == e,
{
    let t = s.push(e);
    assert(name_of(t[s.len() as int]) == name_of(e));
    assert forall|j: int| 0 <= j < s.len() implies name_of(#[trigger] t[j]) != name_of(e) by {
        assert(t[j] == s[j]);
    }
    assert(first_at(t, name_of(e), s.len() as int));
    lemma_position(t, name_of(e), s.len() as int);
}

/// In a list with unique names, removing the job called `n` leaves no job
/// of that name, and the other jobs keep their relative order.
pub proof fn law_remove_then_absent(s: Seq<ScrapeConfig>, n: Option<Seq<char>>)
    requires
        unique_names(s),
        has_name(s, n),
    ensures
        !has_name(s.remove(position(s, n)), n),
        s.remove(position(s, n)).len() == s.len() - 1,
        forall|k: int|
            0 <= k < position(s, n) ==> #[trigger] s.remove(position(s, n))[k] == s[k],
        forall|k: int|
            position(s, n) <= k < s.len() - 1 ==> #[trigger] s.remove(position(s, n))[k] == s[k
                + 1],
{
    let k0 = choose|k: int| 0 <= k < s.len() && name_of(#[trigger] s[k]) == n;
    let p = position(s, n);
    assert(first_at(s, n, p)) by {
        assert(exists|k: int| first_at(s, n, k)) by {
            lemma_has_first(s, n, k0);
        }
    }
    let t = s.remove(p);
    assert forall|k: int| 0 <= k < t.len() implies name_of(#[trigger] t[k]) != n by {
        if k < p {
            assert(t[k] == s[k]);
        } else {
            assert(t[k] == s[k + 1]);
            assert(name_of(s[k + 1]) != name_of(s[p]));
        }
    }
}

/// Where some job carries the name `n`, a first such job exists.
pub proof fn lemma_has_first(s: Seq<ScrapeConfig>, n: Option<Seq<char>>, k: int)
    requires
        0 <= k < s.len(),
        name_of(s[k]) == n,
    ensures
        exists|i: int| first_at(s, n, i),
    decreases k,
{
    if forall|j: int| 0 <= j < k ==> name_of(#[trigger] s[j]) != n {
        assert(first_at(s, n, k));
    } else {
        let j = choose|j: int| 0 <= j < k && name_of(#[trigger] s[j]) == n;
        lemma_has_first(s, n, j);
    }
}

/// Appending a job whose name is absent keeps names unique.
pub proof fn law_add_keeps_unique(s: Seq<ScrapeConfig>, e: ScrapeConfig)
    requires
        unique_names(s),
        !has_name(s, name_of(e)),
    ensures
        unique_names(s.push(e)),
{
    let t = s.push(e);
    assert forall|i: int, j: int|
        0 <= i < t.len() && 0 <= j < t.len() && i != j implies name_of(#[trigger] t[i]) != name_of(
            #[trigger] t[j],
        ) by {
        if i < s.len() && j < s.len() {
            assert(t[i] == s[i] && t[j] == s[j]);
        } else if i < s.len() {
            assert(t[i] == s[i]);
        } else {
            assert(t[j] == s[j]);
        }
    }
}

} // verus!
