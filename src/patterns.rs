//! The store of pattern scripts that the server uploads, and the choice of
//! what to run when the pattern changes. Scripts are opaque text; running
//! them belongs to the scripting host.
//!
//! A script named `lib` holds shared utilities: it is kept apart and run
//! before a pattern whenever a pattern is selected.

use vstd::prelude::*;

use crate::text::{concat, same_text};

verus! {

/// The name of the shared-utilities script.
pub open spec fn lib_name() -> Seq<char> {
    "lib"@
}

/// The text of the error when a pattern that was never loaded is selected.
pub open spec fn not_loaded_text(name: Seq<char>) -> Seq<char> {
    "Pattern '"@ + name + "' not loaded"@
}

/// Pattern scripts by name, plus the shared library script.
pub struct PatternScripts {
    names: Vec<String>,
    sources: Vec<String>,
    lib_source: Option<String>,
    current: Option<String>,
    scripts: Ghost<Map<Seq<char>, Seq<char>>>,
}

/// What the scripting host runs, in a fresh interpreter, to switch pattern.
pub struct PatternSwitch {
    /// The shared script, when one was loaded; it runs first.
    pub lib_source: Option<String>,
    /// The pattern's own script.
    pub source: String,
}

impl PatternScripts {
    /// The loaded pattern scripts, by name.
    pub closed spec fn scripts(&self) -> Map<Seq<char>, Seq<char>> {
        self.scripts@
    }

    pub closed spec fn spec_lib_source(&self) -> Option<Seq<char>> {
        match self.lib_source {
            Some(s) => Some(s@),
            None => None,
        }
    }

    pub closed spec fn spec_current(&self) -> Option<Seq<char>> {
        match self.current {
            Some(s) => Some(s@),
            None => None,
        }
    }

    pub closed spec fn wf(&self) -> bool {
        &&& self.names@.len() == self.sources@.len()
        &&& forall|i: int, j: int|
            0 <= i < j < self.names@.len() ==> (#[trigger] self.names@[i])@ != (#[trigger] self.names@[j])@
        &&& forall|i: int|
            0 <= i < self.names@.len() ==> #[trigger] self.scripts@.contains_key(self.names@[i]@)
                && self.scripts@[self.names@[i]@] == self.sources@[i]@
        &&& forall|k: Seq<char>|
            #[trigger] self.scripts@.contains_key(k) ==> exists|i: int| 0 <= i < self.names@.len() && self.names@[i]@ == k
    }

    /// An empty store: no scripts, no library, no pattern selected.
    pub fn new() -> (r: Self)
        ensures
            r.wf(),
            r.scripts() == Map::<Seq<char>, Seq<char>>::empty(),
            r.spec_lib_source() is None,
            r.spec_current() is None,
    {
        PatternScripts {
            names: Vec::new(),
            sources: Vec::new(),
            lib_source: None,
            current: None,
            scripts: Ghost(Map::empty()),
        }
    }

    /// The index of `name`, if it is loaded.
    fn position(&self, name: &str) -> (r: Option<usize>)
        requires
            self.wf(),
        ensures
            r matches Some(i) ==> i < self.names@.len() && self.names@[i as int]@ == name@,
            r is None ==> !self.scripts@.contains_key(name@),
    {
        let mut i: usize = 0;
        while i < self.names.len()
            invariant
                self.wf(),
                i <= self.names@.len(),
                forall|j: int| 0 <= j < i ==> self.names@[j]@ != name@,
            decreases self.names.len() - i,
        {
            if same_text(self.names[i].as_str(), name) {
                return Some(i);
            }
            i = i + 1;
        }
        None
    }

    /// Stores (or replaces) the script of a pattern.
    pub fn load_pattern(&mut self, name: &str, source: &str)
        requires
            old(self).wf(),
        ensures
            final(self).wf(),
            final(self).scripts() == old(self).scripts().insert(name@, source@),
            final(self).spec_lib_source() == old(self).spec_lib_source(),
            final(self).spec_current() == old(self).spec_current(),
    {
        let ghost old_names = self.names@;
        match self.position(name) {
            Some(i) => {
                let text = source.to_string();
                assert(text@ == source@);
                self.sources.set(i, text);
                self.scripts = Ghost(self.scripts@.insert(name@, source@));
                proof {
                    assert(self.sources@[i as int]@ == source@);
                    assert forall|j: int| 0 <= j < self.names@.len() implies #[trigger] self.scripts@.contains_key(
                        self.names@[j]@,
                    ) && self.scripts@[self.names@[j]@] == self.sources@[j]@ by {
                        if j != i {
                            assert(self.sources@[j] == old(self).sources@[j]);
                            assert(old(self).scripts@.contains_key(self.names@[j]@));
                            if j < i {
                                assert(self.names@[j]@ != self.names@[i as int]@);
                            } else {
                                assert(self.names@[i as int]@ != self.names@[j]@);
                            }
                        }
                    }
                    assert forall|k: Seq<char>| #[trigger] self.scripts@.contains_key(k) implies exists|j: int|
                        0 <= j < self.names@.len() && self.names@[j]@ == k by {
                        if k == name@ {
                            assert(self.names@[i as int]@ == k);
                        } else {
                            assert(old(self).scripts@.contains_key(k));
                        }
                    }
                }
            },
            None => {
                self.names.push(name.to_string());
                self.sources.push(source.to_string());
                self.scripts = Ghost(self.scripts@.insert(name@, source@));
                proof {
                    let n = old_names.len() as int;
                    assert forall|a: int, b: int| 0 <= a < b < self.names@.len() implies (#[trigger] self.names@[a])@
                        != (#[trigger] self.names@[b])@ by {
                        if b == n {
                            assert(old(self).scripts@.contains_key(old_names[a]@));
                        } else {
                            assert(self.names@[a] == old_names[a] && self.names@[b] == old_names[b]);
                        }
                    }
                    assert forall|j: int| 0 <= j < self.names@.len() implies #[trigger] self.scripts@.contains_key(
                        self.names@[j]@,
                    ) && self.scripts@[self.names@[j]@] == self.sources@[j]@ by {
                        if j < n {
                            assert(self.names@[j] == old_names[j]);
                            assert(old(self).scripts@.contains_key(old_names[j]@));
                        }
                    }
                    assert forall|k: Seq<char>| #[trigger] self.scripts@.contains_key(k) implies exists|j: int|
                        0 <= j < self.names@.len() && self.names@[j]@ == k by {
                        if k == name@ {
                            assert(self.names@[n]@ == k);
                        } else {
                            assert(old(self).scripts@.contains_key(k));
                            let j = choose|j: int| 0 <= j < old_names.len() && old_names[j]@ == k;
                            assert(self.names@[j] == old_names[j]);
                        }
                    }
                }
            },
        }
    }

    /// Stores the shared-utilities script.
    pub fn load_lib(&mut self, source: &str)
        requires
            old(self).wf(),
        ensures
            final(self).wf(),
            final(self).scripts() == old(self).scripts(),
            final(self).spec_lib_source() == Some(source@),
            final(self).spec_current() == old(self).spec_current(),
    {
        self.lib_source = Some(source.to_string());
        assert(self.names@ == old(self).names@ && self.sources@ == old(self).sources@);
    }

    /// Stores a script uploaded by the server: `lib` becomes the shared
    /// script, any other name a pattern.
    pub fn load_script(&mut self, name: &str, source: &str)
        requires
            old(self).wf(),
        ensures
            final(self).wf(),
            name@ == lib_name() ==> final(self).scripts() == old(self).scripts()
                && final(self).spec_lib_source() == Some(source@),
            name@ != lib_name() ==> final(self).scripts() == old(self).scripts().insert(name@, source@)
                && final(self).spec_lib_source() == old(self).spec_lib_source(),
            final(self).spec_current() == old(self).spec_current(),
    {
        if same_text(name, "lib") {
            self.load_lib(source);
        } else {
            self.load_pattern(name, source);
        }
    }

    /// The script of a loaded pattern.
    pub fn pattern_source(&self, name: &str) -> (r: Option<String>)
        requires
            self.wf(),
        ensures
            r is Some <==> self.scripts().contains_key(name@),
            r matches Some(s) ==> s@ == self.scripts()[name@],
    {
        match self.position(name) {
            Some(i) => {
                assert(self.scripts@.contains_key(self.names@[i as int]@));
                Some(self.sources[i].clone())
            },
            None => None,
        }
    }

    /// What to run to switch to `name`: the shared script, if any, then the
    /// pattern's; an error when the pattern was never loaded.
    pub fn switch_to(&self, name: &str) -> (r: Result<PatternSwitch, String>)
        requires
            self.wf(),
        ensures
            self.scripts().contains_key(name@) ==> (r matches Ok(sw) && sw.source@ == self.scripts()[name@]
                && match sw.lib_source {
                Some(l) => self.spec_lib_source() == Some(l@),
                None => self.spec_lib_source() is None,
            }),
            !self.scripts().contains_key(name@) ==> (r matches Err(e) && e@ == not_loaded_text(name@)),
    {
        match self.pattern_source(name) {
            Some(source) => {
                let lib_source = match &self.lib_source {
                    Some(l) => Some(l.clone()),
                    None => None,
                };
                Ok(PatternSwitch { lib_source, source })
            },
            None => {
                let head = concat("Pattern '", name);
                Err(concat(head.as_str(), "' not loaded"))
            },
        }
    }

    /// Records that the pattern `name` now runs.
    pub fn mark_current(&mut self, name: &str)
        requires
            old(self).wf(),
        ensures
            final(self).wf(),
            final(self).scripts() == old(self).scripts(),
            final(self).spec_lib_source() == old(self).spec_lib_source(),
            final(self).spec_current() == Some(name@),
    {
        self.current = Some(name.to_string());
        assert(self.names@ == old(self).names@ && self.sources@ == old(self).sources@);
    }

    /// The pattern that runs, if any.
    pub fn current_pattern(&self) -> (r: Option<String>)
        ensures
            match r {
                Some(s) => self.spec_current() == Some(s@),
                None => self.spec_current() is None,
            },
    {
        match &self.current {
            Some(c) => Some(c.clone()),
            None => None,
        }
    }
}

} // verus!
