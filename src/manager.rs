//! The registry of test templates and of the tests instantiated from them.
use vstd::prelude::*;
use indexmap::IndexMap;
use crate::template::{ConfigError, Test, TestTemplate};

verus! {

#[verifier::external_type_specification]
#[verifier::external_body]
#[verifier::reject_recursive_types(K)]
#[verifier::reject_recursive_types(V)]
#[verifier::reject_recursive_types(S)]
pub struct ExIndexMap<K, V, S>(IndexMap<K, V, S>);

/// The entries of a map of templates, in insertion order.
pub uninterp spec fn template_entries(m: IndexMap<String, TestTemplate>) -> Seq<
    (Seq<char>, TestTemplate),
>;

/// The entries of a map of tests, in insertion order.
pub uninterp spec fn test_entries(m: IndexMap<String, Test>) -> Seq<(Seq<char>, Test)>;

pub open spec fn keys_unique<V>(e: Seq<(Seq<char>, V)>) -> bool {
    forall|i: int, j: int| 0 <= i < j < e.len() ==> e[i].0 != e[j].0
}

pub open spec fn has_key<V>(e: Seq<(Seq<char>, V)>, k: Seq<char>) -> bool {
    exists|i: int| 0 <= i < e.len() && e[i].0 == k
}

/// The position of key `k` in `e`, when it is there.
pub open spec fn key_index<V>(e: Seq<(Seq<char>, V)>, k: Seq<char>) -> int {
    choose|i: int| 0 <= i < e.len() && e[i].0 == k
}

/// `e` after inserting `v` under `k`: an existing key keeps its place and
/// takes the new value; a new key goes last.
pub open spec fn inserted<V>(e: Seq<(Seq<char>, V)>, k: Seq<char>, v: V) -> Seq<(Seq<char>, V)> {
    if has_key(e, k) {
        e.update(key_index(e, k), (k, v))
    } else {
        e.push((k, v))
    }
}

/// `e` without the entry of key `k`; the others keep their order.
pub open spec fn removed<V>(e: Seq<(Seq<char>, V)>, k: Seq<char>) -> Seq<(Seq<char>, V)> {
    if has_key(e, k) {
        e.remove(key_index(e, k))
    } else {
        e
    }
}

/// Relies on IndexMap::new: an empty map.
#[verifier::external_body]
fn new_template_map() -> (r: IndexMap<String, TestTemplate>)
    ensures
        template_entries(r) == Seq::<(Seq<char>, TestTemplate)>::empty(),
{
    IndexMap::new()
}

/// Relies on IndexMap::insert: an existing key keeps its place and takes the
/// new value, a new key is put last.
#[verifier::external_body]
fn template_map_insert(m: &mut IndexMap<String, TestTemplate>, k: String, v: TestTemplate)
    ensures
        template_entries(*final(m)) == inserted(template_entries(*old(m)), k@, v),
{
    m.insert(k, v);
}

/// Relies on IndexMap::get: the value stored under the key, if any.
#[verifier::external_body]
fn template_map_get<'a>(m: &'a IndexMap<String, TestTemplate>, k: &str) -> (r: Option<
    &'a TestTemplate,
>)
    ensures
        has_key(template_entries(*m), k@) <==> r is Some,
        r matches Some(t) ==> (exists|i: int|
            0 <= i < template_entries(*m).len() && template_entries(*m)[i].0 == k@ && *t
                == template_entries(*m)[i].1),
{
    m.get(k)
}

/// Relies on IndexMap::new: an empty map.
#[verifier::external_body]
fn new_test_map() -> (r: IndexMap<String, Test>)
    ensures
        test_entries(r) == Seq::<(Seq<char>, Test)>::empty(),
{
    IndexMap::new()
}

/// Relies on IndexMap::insert: an existing key keeps its place and takes the
/// new value, a new key is put last.
#[verifier::external_body]
fn test_map_insert(m: &mut IndexMap<String, Test>, k: String, v: Test)
    ensures
        test_entries(*final(m)) == inserted(test_entries(*old(m)), k@, v),
{
    m.insert(k, v);
}

/// Relies on IndexMap::shift_remove: the entry of the key goes, the others
/// keep their order.
#[verifier::external_body]
fn test_map_shift_remove(m: &mut IndexMap<String, Test>, k: &str)
    ensures
        test_entries(*final(m)) == removed(test_entries(*old(m)), k@),
{
    m.shift_remove(k);
}

/// Relies on IndexMap::len: the number of entries.
#[verifier::external_body]
fn test_map_len(m: &IndexMap<String, Test>) -> (r: usize)
    ensures
        r == test_entries(*m).len(),
{
    m.len()
}

/// Relies on IndexMap::get_index: the entry at a position, if there is one.
#[verifier::external_body]
fn test_map_get_index(m: &IndexMap<String, Test>, i: usize) -> (r: Option<&Test>)
    ensures
        i < test_entries(*m).len() ==> r == Some(&test_entries(*m)[i as int].1),
        i >= test_entries(*m).len() ==> r is None,
{
    m.get_index(i).map(|e| e.1)
}

proof fn lemma_inserted_unique<V>(e: Seq<(Seq<char>, V)>, k: Seq<char>, v: V)
    requires
        keys_unique(e),
    ensures
        keys_unique(inserted(e, k, v)),
        has_key(inserted(e, k, v), k),
        inserted(e, k, v)[key_index(inserted(e, k, v), k)] == (k, v),
        inserted(e, k, v).len() == if has_key(e, k) { e.len() } else { e.len() + 1 },
        forall|k2: Seq<char>| k2 != k ==> (has_key(inserted(e, k, v), k2) <==> has_key(e, k2)),
{
    let r = inserted(e, k, v);
    if has_key(e, k) {
        let i = key_index(e, k);
        assert(r[i].0 == k);
        assert forall|k2: Seq<char>| k2 != k implies (has_key(r, k2) <==> has_key(e, k2)) by {
            if has_key(e, k2) {
                let j = choose|j: int| 0 <= j < e.len() && e[j].0 == k2;
                assert(r[j].0 == k2);
            }
        }
    } else {
        assert(r[e.len() as int].0 == k);
        assert forall|k2: Seq<char>| k2 != k implies (has_key(r, k2) <==> has_key(e, k2)) by {
            if has_key(e, k2) {
                let j = choose|j: int| 0 <= j < e.len() && e[j].0 == k2;
                assert(r[j].0 == k2);
            }
            if has_key(r, k2) {
                let j = choose|j: int| 0 <= j < r.len() && r[j].0 == k2;
                assert(e[j].0 == k2);
            }
        }
    }
}

proof fn lemma_removed_unique<V>(e: Seq<(Seq<char>, V)>, k: Seq<char>)
    requires
        keys_unique(e),
    ensures
        keys_unique(removed(e, k)),
        !has_key(removed(e, k), k),
        removed(e, k).len() == if has_key(e, k) { e.len() - 1 } else { e.len() as int },
        forall|k2: Seq<char>| k2 != k ==> (has_key(removed(e, k), k2) <==> has_key(e, k2)),
{
    let r = removed(e, k);
    if has_key(e, k) {
        let i = key_index(e, k);
        assert forall|a: int, b: int| 0 <= a < b < r.len() implies r[a].0 != r[b].0 by {
            let a2 = if a < i { a } else { a + 1 };
            let b2 = if b < i { b } else { b + 1 };
            assert(r[a] == e[a2]);
            assert(r[b] == e[b2]);
        }
        assert forall|j: int| 0 <= j < r.len() implies r[j].0 != k by {
            let j2 = if j < i { j } else { j + 1 };
            assert(r[j] == e[j2]);
        }
        assert forall|k2: Seq<char>| k2 != k implies (has_key(r, k2) <==> has_key(e, k2)) by {
            if has_key(e, k2) {
                let j = choose|j: int| 0 <= j < e.len() && e[j].0 == k2;
                if j < i {
                    assert(r[j].0 == k2);
                } else {
                    assert(r[j - 1].0 == k2);
                }
            }
            if has_key(r, k2) {
                let j = choose|j: int| 0 <= j < r.len() && r[j].0 == k2;
                let j2 = if j < i { j } else { j + 1 };
                assert(e[j2].0 == k2);
            }
        }
    }
}

/// The registry of templates, by name, and of the tests instantiated from
/// them, in the order they will run.
pub struct TestManager {
    name: String,
    tests_dir_path: String,
    startup_delay: u64,
    templates: IndexMap<String, TestTemplate>,
    active_tests: IndexMap<String, Test>,
}

impl TestManager {
    /// The templates, keyed by name, in registration order.
    pub closed spec fn templates_view(&self) -> Seq<(Seq<char>, TestTemplate)> {
        template_entries(self.templates)
    }

    /// The active tests, keyed by name, in running order.
    pub closed spec fn tests_view(&self) -> Seq<(Seq<char>, Test)> {
        test_entries(self.active_tests)
    }

    pub closed spec fn name_spec(&self) -> Seq<char> {
        self.name@
    }

    pub closed spec fn tests_dir_spec(&self) -> Seq<char> {
        self.tests_dir_path@
    }

    pub closed spec fn startup_delay_spec(&self) -> u64 {
        self.startup_delay
    }

    /// Names are unique, and each template and test is stored under its own name.
    pub open spec fn wf(&self) -> bool {
        &&& keys_unique(self.templates_view())
        &&& keys_unique(self.tests_view())
        &&& forall|i: int|
            0 <= i < self.templates_view().len() ==> #[trigger] self.templates_view()[i].0
                == self.templates_view()[i].1.name@
        &&& forall|i: int|
            0 <= i < self.tests_view().len() ==> #[trigger] self.tests_view()[i].0
                == self.tests_view()[i].1.name@
    }

    /// The template registered under `name`.
    pub open spec fn template_named(&self, name: Seq<char>) -> TestTemplate {
        self.templates_view()[key_index(self.templates_view(), name)].1
    }

    /// A manager with no template and no test, for the tests directory at
    /// `tests_dir_path`, waiting `startup_delay` seconds after each spawn.
    pub fn new(name: &str, tests_dir_path: &str, startup_delay: u64) -> (r: Self)
        ensures
            r.wf(),
            r.name_spec() == name@,
            r.tests_dir_spec() == tests_dir_path@,
            r.startup_delay_spec() == startup_delay,
            r.templates_view().len() == 0,
            r.tests_view().len() == 0,
    {
        TestManager {
            name: name.to_owned(),
            tests_dir_path: tests_dir_path.to_owned(),
            startup_delay,
            templates: new_template_map(),
            active_tests: new_test_map(),
        }
    }

    /// Registers a template under its name; a name can be registered once.
    pub fn register_template(&mut self, template: TestTemplate) -> (r: Result<String, ConfigError>)
        requires
            old(self).wf(),
        ensures
            final(self).wf(),
            final(self).tests_view() == old(self).tests_view(),
            has_key(old(self).templates_view(), template.name@) ==> r == Err::<String, ConfigError>(
                ConfigError::DuplicateTemplate,
            ) && final(self).templates_view() == old(self).templates_view(),
            !has_key(old(self).templates_view(), template.name@) ==> (r matches Ok(n) && n@
                == template.name@) && final(self).templates_view() == old(
                self,
            ).templates_view().push((template.name@, template)),
    {
        if template_map_get(&self.templates, template.name.as_str()).is_some() {
            return Err(ConfigError::DuplicateTemplate);
        }
        let name = template.name.clone();
        let key = template.name.clone();
        let ghost e = self.templates_view();
        proof {
            lemma_inserted_unique(e, template.name@, template);
        }
        template_map_insert(&mut self.templates, key, template);
        proof {
            let r = self.templates_view();
            assert(r == e.push((template.name@, template)));
            assert forall|i: int| 0 <= i < r.len() implies #[trigger] r[i].0 == r[i].1.name@ by {
                if i < e.len() {
                    assert(r[i] == e[i]);
                }
            }
        }
        Ok(name)
    }

    /// What `instantiate_test(name, port)` does to the active tests when it
    /// succeeds: the instance of the named template goes in under that name.
    pub open spec fn instantiated(&self, name: Seq<char>, port: Option<u16>, after: Seq<(Seq<char>, Test)>) -> bool {
        exists|inst: Test|
            self.template_named(name).instance_matches(port, inst) && after == inserted(
                self.tests_view(),
                name,
                inst,
            )
    }

    /// The error `instantiate_test(name, port)` reports, if any.
    pub open spec fn instantiate_test_error(&self, name: Seq<char>, port: Option<u16>) -> Option<ConfigError> {
        if !has_key(self.templates_view(), name) {
            Some(ConfigError::UnknownTemplate)
        } else {
            self.template_named(name).instantiate_error(port)
        }
    }

    /// Instantiates the named template for `port` and makes the result an
    /// active test under the same name, replacing any test of that name.
    pub fn instantiate_test(&mut self, template_name: &str, port: Option<u16>) -> (r: Result<(), ConfigError>)
        requires
            old(self).wf(),
        ensures
            final(self).wf(),
            final(self).templates_view() == old(self).templates_view(),
            final(self).startup_delay_spec() == old(self).startup_delay_spec(),
            old(self).instantiate_test_error(template_name@, port) matches Some(e) ==> r == Err::<
                (),
                ConfigError,
            >(e) && final(self).tests_view() == old(self).tests_view(),
            old(self).instantiate_test_error(template_name@, port) is None ==> r is Ok && old(
                self,
            ).instantiated(template_name@, port, final(self).tests_view()),
    {
        let found = template_map_get(&self.templates, template_name);
        match found {
            None => Err(ConfigError::UnknownTemplate),
            Some(template) => {
                proof {
                    let e = self.templates_view();
                    let i = choose|i: int| 0 <= i < e.len() && e[i].0 == template_name@ && *template == e[i].1;
                    assert(e[key_index(e, template_name@)].0 == template_name@);
                    assert(key_index(e, template_name@) == i);
                }
                match template.instantiate(port) {
                    Err(e) => Err(e),
                    Ok(test) => {
                        let key = test.name.clone();
                        let ghost te = self.tests_view();
                        proof {
                            lemma_inserted_unique(te, test.name@, test);
                        }
                        test_map_insert(&mut self.active_tests, key, test);
                        proof {
                            let r = self.tests_view();
                            let k = test.name@;
                            assert forall|i: int| 0 <= i < r.len() implies #[trigger] r[i].0 == r[i].1.name@ by {
                                if has_key(te, k) {
                                    if i != key_index(te, k) {
                                        assert(r[i] == te[i]);
                                    }
                                } else if i < te.len() {
                                    assert(r[i] == te[i]);
                                }
                            }
                        }
                        Ok(())
                    },
                }
            },
        }
    }

    fn remove_test(&mut self, test_name: &str)
        requires
            old(self).wf(),
        ensures
            final(self).wf(),
            final(self).templates_view() == old(self).templates_view(),
            final(self).startup_delay_spec() == old(self).startup_delay_spec(),
            final(self).tests_view() == removed(old(self).tests_view(), test_name@),
    {
        let ghost te = self.tests_view();
        proof {
            lemma_removed_unique(te, test_name@);
        }
        test_map_shift_remove(&mut self.active_tests, test_name);
        proof {
            let r = self.tests_view();
            if has_key(te, test_name@) {
                let i = key_index(te, test_name@);
                assert forall|j: int| 0 <= j < r.len() implies #[trigger] r[j].0 == r[j].1.name@ by {
                    let j2 = if j < i { j } else { j + 1 };
                    assert(r[j] == te[j2]);
                }
            }
        }
    }

    /// Drops the named test and instantiates its template again for `port`,
    /// as when the first port was taken by another listener. When the test
    /// was active and the new instance is made, the number of active tests
    /// does not change.
    pub fn reinstantiate_test(&mut self, test_name: &str, port: u16) -> (r: Result<(), ConfigError>)
        requires
            old(self).wf(),
        ensures
            final(self).wf(),
            final(self).templates_view() == old(self).templates_view(),
            ({
                let mid = removed(old(self).tests_view(), test_name@);
                &&& old(self).instantiate_test_error(test_name@, Some(port)) matches Some(e) ==> r
                    == Err::<(), ConfigError>(e) && final(self).tests_view() == mid
                &&& old(self).instantiate_test_error(test_name@, Some(port)) is None ==> r is Ok
                    && exists|inst: Test|
                    old(self).template_named(test_name@).instance_matches(Some(port), inst)
                        && final(self).tests_view() == mid.push((test_name@, inst))
            }),
            r is Ok && has_key(old(self).tests_view(), test_name@) ==> final(self).tests_view().len()
                == old(self).tests_view().len(),
    {
        let ghost before = self.tests_view();
        proof {
            lemma_removed_unique(before, test_name@);
        }
        self.remove_test(test_name);
        let r = self.instantiate_test(test_name, Some(port));
        proof {
            let mid = removed(before, test_name@);
            assert(!has_key(mid, test_name@));
            if r is Ok {
                let inst = choose|inst: Test|
                    self.template_named(test_name@).instance_matches(Some(port), inst) && self.tests_view()
                        == inserted(mid, test_name@, inst);
                assert(self.tests_view() == mid.push((test_name@, inst)));
            }
        }
        r
    }

    /// The number of active tests.
    pub fn test_count(&self) -> (r: usize)
        ensures
            r == self.tests_view().len(),
    {
        test_map_len(&self.active_tests)
    }

    /// The active test at position `i` of the running order.
    pub fn test_at(&self, i: usize) -> (r: Option<&Test>)
        ensures
            i < self.tests_view().len() ==> r == Some(&self.tests_view()[i as int].1),
            i >= self.tests_view().len() ==> r is None,
    {
        test_map_get_index(&self.active_tests, i)
    }

    /// The name of this suite.
    pub fn name(&self) -> (r: &String)
        ensures
            r@ == self.name_spec(),
    {
        &self.name
    }

    /// The directory the tests run in.
    pub fn tests_dir_path(&self) -> (r: &String)
        ensures
            r@ == self.tests_dir_spec(),
    {
        &self.tests_dir_path
    }

    /// Seconds to wait after each spawn before the process is observed.
    pub fn startup_delay(&self) -> (r: u64)
        ensures
            r == self.startup_delay_spec(),
    {
        self.startup_delay
    }
}

} // verus!
