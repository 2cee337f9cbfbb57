//! The typed configuration: a display prefix, the audio-capture settings, the
//! shell program, the transcription-model identifier, and the two lookup
//! mappings that drive command resolution. A configuration is immutable per
//! version and replaced wholesale on reload.

use vstd::prelude::*;

verus! {

/// First-match lookup in an association list of key/value pairs.
pub open spec fn lookup_spec(m: Seq<(Seq<char>, Seq<char>)>, key: Seq<char>) -> Option<Seq<char>>
    decreases m.len(),
{
    if m.len() == 0 {
        None
    } else if m[0].0 == key {
        Some(m[0].1)
    } else {
        lookup_spec(m.drop_first(), key)
    }
}

/// A match at `i` with no earlier match pins `lookup_spec` down.
pub proof fn lemma_lookup_at(m: Seq<(Seq<char>, Seq<char>)>, key: Seq<char>, i: int)
    requires
        0 <= i < m.len(),
        m[i].0 == key,
        forall|j: int| 0 <= j < i ==> m[j].0 != key,
    ensures
        lookup_spec(m, key) == Some(m[i].1),
    decreases m.len(),
{
    if i > 0 {
        lemma_lookup_at(m.drop_first(), key, i - 1);
    }
}

/// A key that no entry holds is not found.
pub proof fn lemma_lookup_absent(m: Seq<(Seq<char>, Seq<char>)>, key: Seq<char>)
    requires
        forall|j: int| 0 <= j < m.len() ==> m[j].0 != key,
    ensures
        lookup_spec(m, key) is None,
    decreases m.len(),
{
    if m.len() > 0 {
        lemma_lookup_absent(m.drop_first(), key);
    }
}

/// A key that `lookup_spec` does not find occurs in no entry.
pub proof fn lemma_lookup_none_means_absent(m: Seq<(Seq<char>, Seq<char>)>, key: Seq<char>)
    requires
        lookup_spec(m, key) is None,
    ensures
        forall|j: int| 0 <= j < m.len() ==> m[j].0 != key,
    decreases m.len(),
{
    if m.len() > 0 {
        let t = m.drop_first();
        lemma_lookup_none_means_absent(t, key);
        assert(forall|j: int| 1 <= j < m.len() ==> m[j] == t[j - 1]);
    }
}

/// One of the configuration's two name/value mappings (`actions` or
/// `commands`). Keys are unique; values are arbitrary strings.
pub struct Mapping {
    entries: Vec<(String, String)>,
}

impl View for Mapping {
    type V = Seq<(Seq<char>, Seq<char>)>;

    closed spec fn view(&self) -> Seq<(Seq<char>, Seq<char>)> {
        self.entries@.map_values(|p: (String, String)| (p.0@, p.1@))
    }
}

impl Mapping {
    /// Keys within the mapping are unique.
    pub open spec fn wf(&self) -> bool {
        forall|i: int, j: int| 0 <= i < j < self@.len() ==> self@[i].0 != self@[j].0
    }

    /// The mapping holds `key`.
    pub open spec fn spec_contains(&self, key: Seq<char>) -> bool {
        lookup_spec(self@, key) is Some
    }

    /// An empty mapping.
    pub fn new() -> (r: Mapping)
        ensures
            r@ == Seq::<(Seq<char>, Seq<char>)>::empty(),
            r.wf(),
    {
        let r = Mapping { entries: Vec::new() };
        proof {
            assert(r@ =~= Seq::<(Seq<char>, Seq<char>)>::empty());
        }
        r
    }

    /// Number of entries.
    pub fn len(&self) -> (n: usize)
        ensures
            n == self@.len(),
    {
        self.entries.len()
    }

    /// The value stored under `key`, if any.
    pub fn get(&self, key: &String) -> (r: Option<String>)
        ensures
            match r {
                Some(v) => lookup_spec(self@, key@) == Some(v@),
                None => lookup_spec(self@, key@) is None,
            },
    {
        let n = self.entries.len();
        let mut i: usize = 0;
        while i < n
            invariant
                n == self.entries.len(),
                i <= n,
                self@.len() == n,
                forall|j: int| 0 <= j < i ==> self@[j].0 != key@,
            decreases n - i,
        {
            if self.entries[i].0 == *key {
                proof {
                    lemma_lookup_at(self@, key@, i as int);
                }
                return Some(self.entries[i].1.clone());
            }
            i += 1;
        }
        proof {
            lemma_lookup_absent(self@, key@);
        }
        None
    }

    /// Adds an entry. A key already present keeps its old value and the new
    /// entry is refused, so that keys stay unique.
    pub fn push(&mut self, key: String, value: String) -> (added: bool)
        requires
            old(self).wf(),
        ensures
            final(self).wf(),
            added <==> lookup_spec(old(self)@, key@) is None,
            added ==> final(self)@ == old(self)@.push((key@, value@)),
            !added ==> final(self)@ == old(self)@,
    {
        let present = self.get(&key).is_some();
        if present {
            false
        } else {
            let ghost before = self@;
            proof {
                lemma_lookup_none_means_absent(before, key@);
            }
            self.entries.push((key, value));
            proof {
                assert(self@ =~= before.push((key@, value@)));
            }
            true
        }
    }

    /// A full copy of the mapping.
    pub fn duplicate(&self) -> (r: Mapping)
        ensures
            r@ == self@,
    {
        let n = self.entries.len();
        let mut entries: Vec<(String, String)> = Vec::new();
        let mut i: usize = 0;
        while i < n
            invariant
                n == self.entries.len(),
                i <= n,
                entries@.len() == i,
                forall|j: int|
                    0 <= j < i ==> (#[trigger] entries@[j].0)@ == self@[j].0 && entries@[j].1@
                        == self@[j].1,
            decreases n - i,
        {
            entries.push((self.entries[i].0.clone(), self.entries[i].1.clone()));
            i += 1;
        }
        let r = Mapping { entries };
        proof {
            assert(r@ =~= self@);
        }
        r
    }
}

/// The ghost image of one configuration version: every field as a plain
/// mathematical value.
pub struct ConfigView {
    pub prefix: Seq<char>,
    pub audio_capture_enabled: bool,
    pub audio_device: Seq<char>,
    pub program: Seq<char>,
    pub model: Seq<char>,
    pub actions: Seq<(Seq<char>, Seq<char>)>,
    pub commands: Seq<(Seq<char>, Seq<char>)>,
}

/// Display settings: the prefix shown before the daemon's own messages.
pub struct DefaultConfig {
    pub prefix: String,
}

/// Daemon settings: whether audio capture runs, and on which device.
pub struct DaemonConfig {
    pub audio_capture_enabled: bool,
    pub audio_device: String,
}

/// The transcription-model identifier.
pub struct WhisperConfig {
    pub model: String,
}

/// The program used to execute resolved commands.
pub struct ShellConfig {
    pub program: String,
}

/// One version of the daemon's configuration. Constructed whole, replaced
/// whole on reload, never mutated field by field.
pub struct Config {
    pub default: DefaultConfig,
    pub daemon: DaemonConfig,
    pub shell: ShellConfig,
    pub whisper: WhisperConfig,
    pub actions: Mapping,
    pub commands: Mapping,
}

impl View for Config {
    type V = ConfigView;

    open spec fn view(&self) -> ConfigView {
        ConfigView {
            prefix: self.default.prefix@,
            audio_capture_enabled: self.daemon.audio_capture_enabled,
            audio_device: self.daemon.audio_device@,
            program: self.shell.program@,
            model: self.whisper.model@,
            actions: self.actions@,
            commands: self.commands@,
        }
    }
}

impl Config {
    /// Both mappings keep their keys unique.
    pub open spec fn wf(&self) -> bool {
        self.actions.wf() && self.commands.wf()
    }

    /// A full copy: the snapshot a reader works with for one operation.
    pub fn duplicate(&self) -> (r: Config)
        ensures
            r@ == self@,
            r.wf() == self.wf(),
    {
        Config {
            default: DefaultConfig { prefix: self.default.prefix.clone() },
            daemon: DaemonConfig {
                audio_capture_enabled: self.daemon.audio_capture_enabled,
                audio_device: self.daemon.audio_device.clone(),
            },
            shell: ShellConfig { program: self.shell.program.clone() },
            whisper: WhisperConfig { model: self.whisper.model.clone() },
            actions: self.actions.duplicate(),
            commands: self.commands.duplicate(),
        }
    }
}

} // verus!
