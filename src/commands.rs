//! Persisted named commands with optional, unique hotkey bindings.

use vstd::prelude::*;

verus! {

/// A named device invocation, optionally bound to a hotkey.
#[derive(Clone, Debug, PartialEq, Eq)]
pub struct SavedCommand {
    pub name: String,
    pub method: String,
    /// The parameters, as JSON text.
    pub params: String,
    pub shortcut: Option<String>,
}

/// Why the registry refused a change. The registry is left as it was.
#[derive(Clone, Copy, Debug, PartialEq, Eq, Structural)]
pub enum RegistryError {
    DuplicateName,
    DuplicateBinding,
    EmptyBinding,
    NotFound,
}

/// The hotkey registrations that must change with an accepted registry change:
/// release the old binding first, then install the new one.
#[derive(Clone, Debug, PartialEq, Eq)]
pub struct BindingChange {
    pub release: Option<String>,
    pub install: Option<String>,
}

/// What `str::trim` returns for a string.
pub uninterp spec fn trim_of(s: Seq<char>) -> Seq<char>;

/// Relies on `str::trim`: the string without leading and trailing whitespace;
/// nothing is left of an empty string.
#[verifier::external_body]
fn trim_str(s: &str) -> (r: &str)
    ensures
        r@ == trim_of(s@),
        s@.len() == 0 ==> r@.len() == 0,
{
    s.trim()
}

/// A binding that is empty or whitespace only.
pub open spec fn is_blank(b: Seq<char>) -> bool {
    trim_of(b).len() == 0
}

pub open spec fn names_unique(s: Seq<SavedCommand>) -> bool {
    forall|i: int, j: int| 0 <= i < j < s.len() ==> s[i].name@ != s[j].name@
}

pub open spec fn bindings_unique(s: Seq<SavedCommand>) -> bool {
    forall|i: int, j: int|
        0 <= i < j < s.len() && s[i].shortcut is Some && s[j].shortcut is Some
            ==> s[i].shortcut->0@ != s[j].shortcut->0@
}

/// No two commands share a name, and no two bindings are equal.
pub open spec fn commands_wf(s: Seq<SavedCommand>) -> bool {
    names_unique(s) && bindings_unique(s)
}

pub open spec fn has_name(s: Seq<SavedCommand>, n: Seq<char>) -> bool {
    exists|i: int| 0 <= i < s.len() && s[i].name@ == n
}

/// The position of the command named `n`, where there is one.
pub open spec fn name_index(s: Seq<SavedCommand>, n: Seq<char>) -> int {
    choose|i: int| 0 <= i < s.len() && s[i].name@ == n
}

/// Some command not named `except` is bound to `b`.
pub open spec fn binding_taken(s: Seq<SavedCommand>, b: Seq<char>, except: Seq<char>) -> bool {
    exists|i: int|
        0 <= i < s.len() && s[i].name@ != except && s[i].shortcut is Some && s[i].shortcut->0@
            == b
}

/// Why `cmd`'s binding cannot join `s`, where it cannot.
pub open spec fn binding_error(s: Seq<SavedCommand>, cmd: SavedCommand) -> Option<RegistryError> {
    match cmd.shortcut {
        None => None,
        Some(b) => if is_blank(b@) {
            Some(RegistryError::EmptyBinding)
        } else if binding_taken(s, b@, cmd.name@) {
            Some(RegistryError::DuplicateBinding)
        } else {
            None
        },
    }
}

pub open spec fn create_error(s: Seq<SavedCommand>, cmd: SavedCommand) -> Option<RegistryError> {
    if has_name(s, cmd.name@) {
        Some(RegistryError::DuplicateName)
    } else {
        binding_error(s, cmd)
    }
}

pub open spec fn update_error(s: Seq<SavedCommand>, cmd: SavedCommand) -> Option<RegistryError> {
    if !has_name(s, cmd.name@) {
        Some(RegistryError::NotFound)
    } else {
        binding_error(s, cmd)
    }
}

/// Of the commands read from storage, the first of each name is kept, and a
/// binding already held by a command kept earlier is dropped.
pub open spec fn normalized(s: Seq<SavedCommand>) -> Seq<SavedCommand>
    decreases s.len(),
{
    if s.len() == 0 {
        Seq::empty()
    } else {
        let p = normalized(s.drop_last());
        let c = s.last();
        if has_name(p, c.name@) {
            p
        } else {
            match c.shortcut {
                Some(b) => if binding_taken(p, b@, c.name@) {
                    p.push(SavedCommand { shortcut: None, ..c })
                } else {
                    p.push(c)
                },
                None => p.push(c),
            }
        }
    }
}

impl SavedCommand {
    /// A copy with equal fields.
    pub fn duplicate(&self) -> (r: SavedCommand)
        ensures
            r == *self,
    {
        SavedCommand {
            name: self.name.clone(),
            method: self.method.clone(),
            params: self.params.clone(),
            shortcut: copy_binding(&self.shortcut),
        }
    }
}

fn copy_binding(b: &Option<String>) -> (r: Option<String>)
    ensures
        r == *b,
{
    match b {
        Some(s) => Some(s.clone()),
        None => None,
    }
}

/// The position of the command named `name` in `v`.
fn position_of(v: &Vec<SavedCommand>, name: &String) -> (r: Option<usize>)
    ensures
        match r {
            Some(i) => i < v@.len() && v@[i as int].name@ == name@,
            None => !has_name(v@, name@),
        },
{
    let mut i: usize = 0;
    while i < v.len()
        invariant
            i <= v@.len(),
            forall|k: int| 0 <= k < i ==> v@[k].name@ != name@,
        decreases v@.len() - i,
    {
        if v[i].name == *name {
            return Some(i);
        }
        i += 1;
    }
    None
}

/// Whether a command of `v` not named `except` is bound to `b`.
fn binding_held(v: &Vec<SavedCommand>, b: &String, except: &String) -> (r: bool)
    ensures
        r == binding_taken(v@, b@, except@),
{
    let mut i: usize = 0;
    while i < v.len()
        invariant
            i <= v@.len(),
            forall|k: int|
                0 <= k < i ==> !(v@[k].name@ != except@ && v@[k].shortcut is Some
                    && v@[k].shortcut->0@ == b@),
        decreases v@.len() - i,
    {
        let c = &v[i];
        if c.name != *except {
            if let Some(s) = &c.shortcut {
                if *s == *b {
                    return true;
                }
            }
        }
        i += 1;
    }
    false
}

/// Why `cmd`'s binding cannot join `v`, where it cannot.
fn check_binding(v: &Vec<SavedCommand>, cmd: &SavedCommand) -> (r: Option<RegistryError>)
    ensures
        r == binding_error(v@, *cmd),
{
    match &cmd.shortcut {
        None => None,
        Some(b) => {
            if trim_str(b.as_str()).is_empty() {
                Some(RegistryError::EmptyBinding)
            } else if binding_held(v, b, &cmd.name) {
                Some(RegistryError::DuplicateBinding)
            } else {
                None
            }
        },
    }
}

/// The stored commands, in the order they were created. No two share a name
/// and no two share a binding.
pub struct CommandRegistry {
    commands: Vec<SavedCommand>,
}

impl View for CommandRegistry {
    type V = Seq<SavedCommand>;

    closed spec fn view(&self) -> Seq<SavedCommand> {
        self.commands@
    }
}

impl CommandRegistry {
    pub open spec fn wf(&self) -> bool {
        commands_wf(self@)
    }

    /// A registry with no command.
    pub fn new() -> (r: CommandRegistry)
        ensures
            r.wf(),
            r@ == Seq::<SavedCommand>::empty(),
    {
        CommandRegistry { commands: Vec::new() }
    }

    /// The registry held in storage. A file that could not be read or decoded
    /// counts as an empty registry; of the commands read, the first of each
    /// name is kept, and a binding that an earlier command holds is dropped.
    pub fn load_all_commands(stored: Option<Vec<SavedCommand>>) -> (r: CommandRegistry)
        ensures
            r.wf(),
            r@ == (match stored {
                Some(v) => normalized(v@),
                None => Seq::empty(),
            }),
    {
        match stored {
            None => CommandRegistry::new(),
            Some(v) => {
                let mut out: Vec<SavedCommand> = Vec::new();
                let mut i: usize = 0;
                while i < v.len()
                    invariant
                        i <= v@.len(),
                        out@ == normalized(v@.subrange(0, i as int)),
                        commands_wf(out@),
                    decreases v@.len() - i,
                {
                    let c = v[i].duplicate();
                    proof {
                        assert(v@.subrange(0, i + 1).drop_last() =~= v@.subrange(0, i as int));
                        assert(v@.subrange(0, i + 1).last() == v@[i as int]);
                    }
                    match position_of(&out, &c.name) {
                        Some(_) => {},
                        None => {
                            let mut kept = c;
                            let taken = match &kept.shortcut {
                                Some(b) => binding_held(&out, b, &kept.name),
                                None => false,
                            };
                            if taken {
                                kept.shortcut = None;
                            }
                            proof {
                                let o = out@.push(kept);
                                assert forall|a: int, b: int| 0 <= a < b < o.len() implies o[a].name@
                                    != o[b].name@ by {
                                    if b == out@.len() {
                                        assert(out@[a].name@ != kept.name@);
                                    }
                                }
                                assert forall|a: int, b: int|
                                    0 <= a < b < o.len() && o[a].shortcut is Some
                                        && o[b].shortcut is Some implies o[a].shortcut->0@
                                    != o[b].shortcut->0@ by {
                                    if b == out@.len() {
                                        assert(out@[a].name@ != kept.name@);
                                    }
                                }
                            }
                            out.push(kept);
                        },
                    }
                    i += 1;
                }
                proof {
                    assert(v@.subrange(0, v@.len() as int) =~= v@);
                }
                CommandRegistry { commands: out }
            },
        }
    }

    /// The stored commands, in order.
    pub fn commands(&self) -> (r: &Vec<SavedCommand>)
        ensures
            r@ == self@,
    {
        &self.commands
    }

    /// The position of the command named `name`.
    pub fn find(&self, name: &String) -> (r: Option<usize>)
        requires
            self.wf(),
        ensures
            match r {
                Some(i) => i < self@.len() && self@[i as int].name@ == name@ && i == name_index(
                    self@,
                    name@,
                ),
                None => !has_name(self@, name@),
            },
    {
        let r = position_of(&self.commands, name);
        if let Some(i) = r {
            assert(self@[name_index(self@, name@)].name@ == name@);
        }
        r
    }

    /// Adds `cmd` if no command has its name and its binding, if any, is
    /// neither blank nor held by another command.
    pub fn create(&mut self, cmd: SavedCommand) -> (r: Result<BindingChange, RegistryError>)
        requires
            old(self).wf(),
        ensures
            final(self).wf(),
            match create_error(old(self)@, cmd) {
                Some(e) => r == Err::<BindingChange, RegistryError>(e) && final(self)@ == old(
                    self,
                )@,
                None => r == Ok::<BindingChange, RegistryError>(
                    BindingChange { release: None, install: cmd.shortcut },
                ) && final(self)@ == old(self)@.push(cmd),
            },
    {
        if position_of(&self.commands, &cmd.name).is_some() {
            return Err(RegistryError::DuplicateName);
        }
        if let Some(e) = check_binding(&self.commands, &cmd) {
            return Err(e);
        }
        let install = copy_binding(&cmd.shortcut);
        proof {
            let o = self@.push(cmd);
            assert forall|a: int, b: int| 0 <= a < b < o.len() implies o[a].name@ != o[b].name@ by {
                if b == self@.len() {
                    assert(self@[a].name@ != cmd.name@);
                }
            }
            assert forall|a: int, b: int|
                0 <= a < b < o.len() && o[a].shortcut is Some && o[b].shortcut is Some implies o[a].shortcut->0@
                != o[b].shortcut->0@ by {
                if b == self@.len() {
                    assert(self@[a].name@ != cmd.name@);
                }
            }
        }
        self.commands.push(cmd);
        Ok(BindingChange { release: None, install })
    }

    /// Replaces the command of `cmd`'s name with `cmd`, if there is one and
    /// `cmd`'s binding, if any, is neither blank nor held by another command.
    pub fn update(&mut self, cmd: SavedCommand) -> (r: Result<BindingChange, RegistryError>)
        requires
            old(self).wf(),
        ensures
            final(self).wf(),
            match update_error(old(self)@, cmd) {
                Some(e) => r == Err::<BindingChange, RegistryError>(e) && final(self)@ == old(
                    self,
                )@,
                None => {
                    let i = name_index(old(self)@, cmd.name@);
                    &&& r == Ok::<BindingChange, RegistryError>(
                        BindingChange { release: old(self)@[i].shortcut, install: cmd.shortcut },
                    )
                    &&& final(self)@ == old(self)@.update(i, cmd)
                },
            },
    {
        let i = match self.find(&cmd.name) {
            Some(i) => i,
            None => return Err(RegistryError::NotFound),
        };
        if let Some(e) = check_binding(&self.commands, &cmd) {
            return Err(e);
        }
        let install = copy_binding(&cmd.shortcut);
        let release = copy_binding(&self.commands[i].shortcut);
        proof {
            let o = self@.update(i as int, cmd);
            assert forall|a: int, b: int| 0 <= a < b < o.len() implies o[a].name@ != o[b].name@ by {
                assert(self@[a].name@ != self@[b].name@);
            }
            assert forall|a: int, b: int|
                0 <= a < b < o.len() && o[a].shortcut is Some && o[b].shortcut is Some implies o[a].shortcut->0@
                != o[b].shortcut->0@ by {
                if a == i {
                    assert(self@[b].name@ != cmd.name@);
                } else if b == i {
                    assert(self@[a].name@ != cmd.name@);
                }
            }
        }
        self.commands.set(i, cmd);
        Ok(BindingChange { release, install })
    }

    /// Removes the command named `name`, if there is one.
    pub fn delete(&mut self, name: &String) -> (r: Result<BindingChange, RegistryError>)
        requires
            old(self).wf(),
        ensures
            final(self).wf(),
            !has_name(old(self)@, name@) ==> r == Err::<BindingChange, RegistryError>(
                RegistryError::NotFound,
            ) && final(self)@ == old(self)@,
            has_name(old(self)@, name@) ==> {
                let i = name_index(old(self)@, name@);
                &&& r == Ok::<BindingChange, RegistryError>(
                    BindingChange { release: old(self)@[i].shortcut, install: None },
                )
                &&& final(self)@ == old(self)@.remove(i)
            },
    {
        let i = match self.find(name) {
            Some(i) => i,
            None => return Err(RegistryError::NotFound),
        };
        let gone = self.commands.remove(i);
        proof {
            let o = old(self)@.remove(i as int);
            assert forall|a: int, b: int| 0 <= a < b < o.len() implies o[a].name@ != o[b].name@ by {
                if a >= i {
                    assert(o[a] == old(self)@[a + 1]);
                }
                if b >= i {
                    assert(o[b] == old(self)@[b + 1]);
                }
            }
            assert forall|a: int, b: int|
                0 <= a < b < o.len() && o[a].shortcut is Some && o[b].shortcut is Some implies o[a].shortcut->0@
                != o[b].shortcut->0@ by {
                if a >= i {
                    assert(o[a] == old(self)@[a + 1]);
                }
                if b >= i {
                    assert(o[b] == old(self)@[b + 1]);
                }
            }
        }
        Ok(BindingChange { release: gone.shortcut, install: None })
    }

    /// Whether `shortcut` may be bound to a new command: it must not be blank
    /// and no stored command may hold it.
    pub fn validate_shortcut(&self, shortcut: &String) -> (r: Result<(), RegistryError>)
        ensures
            r == (if is_blank(shortcut@) {
                Err(RegistryError::EmptyBinding)
            } else if (exists|i: int|
                0 <= i < self@.len() && self@[i].shortcut is Some && self@[i].shortcut->0@
                    == shortcut@) {
                Err(RegistryError::DuplicateBinding)
            } else {
                Ok::<(), RegistryError>(())
            }),
    {
        if trim_str(shortcut.as_str()).is_empty() {
            return Err(RegistryError::EmptyBinding);
        }
        let mut i: usize = 0;
        while i < self.commands.len()
            invariant
                i <= self@.len(),
                !is_blank(shortcut@),
                forall|k: int|
                    0 <= k < i ==> !(self@[k].shortcut is Some && self@[k].shortcut->0@
                        == shortcut@),
            decreases self@.len() - i,
        {
            if let Some(s) = &self.commands[i].shortcut {
                if *s == *shortcut {
                    assert(self@[i as int].shortcut is Some && self@[i as int].shortcut->0@
                        == shortcut@);
                    return Err(RegistryError::DuplicateBinding);
                }
            }
            i += 1;
        }
        Ok(())
    }

    /// The commands that carry a binding, in order: those whose hotkeys must be
    /// listened for.
    pub fn bound_commands(&self) -> (r: Vec<SavedCommand>)
        ensures
            r@ == self@.filter(|c: SavedCommand| c.shortcut is Some),
    {
        let mut out: Vec<SavedCommand> = Vec::new();
        let mut i: usize = 0;
        while i < self.commands.len()
            invariant
                i <= self@.len(),
                out@ == self@.subrange(0, i as int).filter(|c: SavedCommand| c.shortcut is Some),
            decreases self@.len() - i,
        {
            proof {
                reveal(Seq::filter);
                assert(self@.subrange(0, i + 1).drop_last() =~= self@.subrange(0, i as int));
            }
            if self.commands[i].shortcut.is_some() {
                out.push(self.commands[i].duplicate());
            }
            i += 1;
        }
        proof {
            assert(self@.subrange(0, self@.len() as int) =~= self@);
        }
        out
    }
}

/// Creating a command and then another of the same name: the second call is
/// refused for its name, whatever else it holds.
pub proof fn lemma_create_same_name_twice(s: Seq<SavedCommand>, a: SavedCommand, b: SavedCommand)
    requires
        commands_wf(s),
        create_error(s, a) is None,
        b.name@ == a.name@,
    ensures
        create_error(s.push(a), b) == Some(RegistryError::DuplicateName),
{
    assert(s.push(a)[s.len() as int].name@ == b.name@);
}

/// Once a command is bound to a hotkey, a command of another name that asks
/// for the same hotkey is refused for its binding, on creation and on update
/// (unless its name alone already decides the outcome).
pub proof fn lemma_binding_conflict(s: Seq<SavedCommand>, a: SavedCommand, b: SavedCommand)
    requires
        commands_wf(s),
        create_error(s, a) is None,
        a.shortcut is Some,
        b.shortcut is Some,
        b.shortcut->0@ == a.shortcut->0@,
        b.name@ != a.name@,
    ensures
        create_error(s.push(a), b) == (if has_name(s, b.name@) {
            Some(RegistryError::DuplicateName)
        } else {
            Some(RegistryError::DuplicateBinding)
        }),
        update_error(s.push(a), b) == (if has_name(s, b.name@) {
            Some(RegistryError::DuplicateBinding)
        } else {
            Some(RegistryError::NotFound)
        }),
{
    let t = s.push(a);
    assert(t[s.len() as int] == a);
    if has_name(s, b.name@) {
        let i = choose|i: int| 0 <= i < s.len() && s[i].name@ == b.name@;
        assert(t[i] == s[i]);
    } else {
        assert forall|i: int| 0 <= i < t.len() implies t[i].name@ != b.name@ by {
            if i < s.len() {
                assert(t[i] == s[i]);
            }
        }
    }
}

/// Deleting the command that holds a binding frees it: a command of a new
/// name may then be created with that same binding.
pub proof fn lemma_delete_frees_binding(s: Seq<SavedCommand>, n: Seq<char>, c: SavedCommand)
    requires
        commands_wf(s),
        has_name(s, n),
        s[name_index(s, n)].shortcut is Some,
        c.shortcut is Some,
        c.shortcut->0@ == s[name_index(s, n)].shortcut->0@,
        !is_blank(c.shortcut->0@),
        !has_name(s.remove(name_index(s, n)), c.name@),
    ensures
        create_error(s.remove(name_index(s, n)), c) is None,
{
    let k = name_index(s, n);
    let t = s.remove(k);
    assert forall|i: int|
        0 <= i < t.len() && t[i].name@ != c.name@ && t[i].shortcut is Some implies t[i].shortcut->0@
        != c.shortcut->0@ by {
        if i < k {
            assert(t[i] == s[i]);
        } else {
            assert(t[i] == s[i + 1]);
        }
    }
}

/// A stored registry that already keeps names and bindings unique loads
/// exactly as it was stored.
pub proof fn lemma_wf_loads_unchanged(s: Seq<SavedCommand>)
    requires
        commands_wf(s),
    ensures
        normalized(s) == s,
    decreases s.len(),
{
    if s.len() > 0 {
        let p = s.drop_last();
        let c = s.last();
        assert(commands_wf(p)) by {
            assert forall|a: int, b: int| 0 <= a < b < p.len() implies p[a].name@ != p[b].name@ by {
                assert(p[a] == s[a] && p[b] == s[b]);
            }
            assert forall|a: int, b: int|
                0 <= a < b < p.len() && p[a].shortcut is Some && p[b].shortcut is Some implies p[a].shortcut->0@
                != p[b].shortcut->0@ by {
                assert(p[a] == s[a] && p[b] == s[b]);
            }
        }
        lemma_wf_loads_unchanged(p);
        assert forall|i: int| 0 <= i < p.len() implies p[i].name@ != c.name@ by {
            assert(p[i] == s[i]);
        }
        if let Some(b) = c.shortcut {
            assert forall|i: int|
                0 <= i < p.len() && p[i].name@ != c.name@ && p[i].shortcut is Some implies p[i].shortcut->0@
                != b@ by {
                assert(p[i] == s[i]);
            }
        }
        assert(p.push(c) =~= s);
    }
}

} // verus!
