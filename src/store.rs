//! The list of stored configurations: what reading it yields, and how saving,
//! deleting, starting and stopping change it.

use vstd::prelude::*;
use crate::config::{ProxyConfig, same_config};
use crate::error::CommandError;
use crate::text::is_blank_text;

verus! {

/// What reading the configuration store found.
#[derive(Debug)]
pub enum Stored {
    /// Nothing has been stored.
    Absent,
    /// Stored data that does not read back as configurations; holds the cause.
    Corrupt(String),
    /// The stored configurations, in order.
    Present(Vec<ProxyConfig>),
}

/// The stored configurations, with anything unreadable taken as none.
pub open spec fn stored_or_empty(s: Stored) -> Seq<ProxyConfig> {
    match s {
        Stored::Present(v) => v@,
        _ => Seq::empty(),
    }
}

pub open spec fn has_id(s: Seq<ProxyConfig>, id: Seq<char>) -> bool {
    exists|i: int| 0 <= i < s.len() && (#[trigger] s[i]).id@ == id
}

/// `i` is the first position of `s` whose configuration has identifier `id`.
pub open spec fn first_with_id(s: Seq<ProxyConfig>, id: Seq<char>, i: int) -> bool {
    &&& 0 <= i < s.len()
    &&& s[i].id@ == id
    &&& forall|j: int| 0 <= j < i ==> (#[trigger] s[j]).id@ != id
}

/// Holds of a configuration whose identifier is not `id`.
pub open spec fn other_id(id: Seq<char>) -> spec_fn(ProxyConfig) -> bool {
    |c: ProxyConfig| c.id@ != id
}

/// `c` with its running flag set to `running`.
pub open spec fn with_running(c: ProxyConfig, running: bool) -> ProxyConfig {
    ProxyConfig { is_running: running, ..c }
}

/// The configurations to show: those stored, or none where nothing readable
/// is stored.
pub fn list_configs(stored: Stored) -> (r: Vec<ProxyConfig>)
    ensures
        r@ == stored_or_empty(stored),
{
    match stored {
        Stored::Present(v) => v,
        _ => Vec::new(),
    }
}

/// The stored configurations, where an operation cannot go on without them.
pub fn require_configs(stored: Stored) -> (r: Result<Vec<ProxyConfig>, CommandError>)
    ensures
        stored is Absent ==> r == Err::<Vec<ProxyConfig>, CommandError>(CommandError::NoConfigs),
        stored is Corrupt ==> r == Err::<Vec<ProxyConfig>, CommandError>(
            CommandError::Corrupt(stored->Corrupt_0),
        ),
        stored is Present ==> r == Ok::<Vec<ProxyConfig>, CommandError>(stored->Present_0),
{
    match stored {
        Stored::Absent => Err(CommandError::NoConfigs),
        Stored::Corrupt(e) => Err(CommandError::Corrupt(e)),
        Stored::Present(v) => Ok(v),
    }
}

/// The first position whose configuration has the identifier `id`.
pub fn position_of(configs: &Vec<ProxyConfig>, id: &String) -> (r: Option<usize>)
    ensures
        r is Some ==> first_with_id(configs@, id@, r->Some_0 as int),
        r is None ==> !has_id(configs@, id@),
{
    let mut i: usize = 0;
    while i < configs.len()
        invariant
            i <= configs.len(),
            forall|j: int| 0 <= j < i ==> (#[trigger] configs@[j]).id@ != id@,
        decreases configs.len() - i,
    {
        if configs[i].id == *id {
            return Some(i);
        }
        i = i + 1;
    }
    None
}

/// Stores `config`: it replaces the first stored configuration with its
/// identifier, or is appended when there is none. A blank name or a zero
/// port is refused and leaves the list as it was.
pub fn save_into(configs: &mut Vec<ProxyConfig>, config: ProxyConfig) -> (r: Result<(), CommandError>)
    ensures
        is_blank_text(config.name@) ==> r == Err::<(), CommandError>(CommandError::EmptyName),
        !is_blank_text(config.name@) && config.listen_port == 0
            ==> r == Err::<(), CommandError>(CommandError::InvalidPort),
        r is Err ==> final(configs)@ == old(configs)@,
        !is_blank_text(config.name@) && config.listen_port != 0 ==> {
            &&& r is Ok
            &&& has_id(old(configs)@, config.id@) ==> exists|i: int|
                first_with_id(old(configs)@, config.id@, i)
                    && final(configs)@ == #[trigger] old(configs)@.update(i, config)
            &&& !has_id(old(configs)@, config.id@) ==> final(configs)@ == old(configs)@.push(config)
        },
{
    match config.validate() {
        Err(e) => Err(e),
        Ok(()) => {
            match position_of(configs, &config.id) {
                Some(i) => {
                    configs.set(i, config);
                },
                None => {
                    configs.push(config);
                },
            }
            Ok(())
        },
    }
}

/// Deletes every stored configuration with identifier `id`; fails, leaving
/// the list as it was, when there is none.
pub fn delete_from(configs: &mut Vec<ProxyConfig>, id: &String) -> (r: Result<(), CommandError>)
    ensures
        final(configs)@ == old(configs)@.filter(other_id(id@)),
        has_id(old(configs)@, id@) ==> r is Ok,
        !has_id(old(configs)@, id@) ==> r is Err && r->Err_0 is ConfigNotFound
            && r->Err_0->ConfigNotFound_0@ == id@ && final(configs)@ == old(configs)@,
{
    let ghost initial = configs@;
    let mut rest: Vec<ProxyConfig> = Vec::new();
    std::mem::swap(configs, &mut rest);
    let mut found = false;
    while rest.len() > 0
        invariant
            rest@.len() <= initial.len(),
            rest@ == initial.subrange(initial.len() - rest@.len(), initial.len() as int),
            configs@ == initial.subrange(0, initial.len() - rest@.len()).filter(other_id(id@)),
            found == exists|i: int|
                0 <= i < initial.len() - rest@.len() && (#[trigger] initial[i]).id@ == id@,
            !found ==> configs@ == initial.subrange(0, initial.len() - rest@.len()),
        decreases rest.len(),
    {
        let ghost k = initial.len() - rest@.len();
        let c = rest.remove(0);
        let ghost s1 = initial.subrange(0, k + 1);
        assert(s1.drop_last() =~= initial.subrange(0, k));
        assert(c == initial[k]);
        assert(s1.last() == c);
        reveal(Seq::filter);
        assert(other_id(id@)(c) == (c.id@ != id@));
        assert(s1.filter(other_id(id@)) == if other_id(id@)(c) {
            initial.subrange(0, k).filter(other_id(id@)).push(c)
        } else {
            initial.subrange(0, k).filter(other_id(id@))
        });
        if c.id == *id {
            found = true;
        } else {
            configs.push(c);
        }
        assert(configs@ == s1.filter(other_id(id@)));
        assert(rest@ =~= initial.subrange(k + 1, initial.len() as int));
    }
    assert(initial.subrange(0, initial.len() as int) =~= initial);
    if found {
        Ok(())
    } else {
        Err(CommandError::ConfigNotFound(id.clone()))
    }
}

/// The stored configuration with identifier `id`, copied.
pub fn find_config(configs: &Vec<ProxyConfig>, id: &String) -> (r: Result<ProxyConfig, CommandError>)
    ensures
        r is Ok ==> exists|i: int|
            first_with_id(configs@, id@, i) && same_config(r->Ok_0, #[trigger] configs@[i]),
        has_id(configs@, id@) ==> r is Ok,
        !has_id(configs@, id@) ==> r is Err && r->Err_0 is ConfigNotFound
            && r->Err_0->ConfigNotFound_0@ == id@,
{
    match position_of(configs, id) {
        Some(i) => Ok(configs[i].duplicate()),
        None => Err(CommandError::ConfigNotFound(id.clone())),
    }
}

/// Sets the running flag of the first configuration with identifier `id`;
/// the list is unchanged when there is none.
pub fn set_running(configs: &mut Vec<ProxyConfig>, id: &String, running: bool)
    ensures
        !has_id(old(configs)@, id@) ==> final(configs)@ == old(configs)@,
        has_id(old(configs)@, id@) ==> exists|i: int|
            first_with_id(old(configs)@, id@, i) && final(configs)@ == #[trigger] old(configs)@.update(
                i,
                with_running(old(configs)@[i], running),
            ),
{
    match position_of(configs, id) {
        Some(i) => {
            let ghost before = configs@;
            let mut c = configs.remove(i);
            c.is_running = running;
            configs.insert(i, c);
            assert(configs@ =~= before.update(i as int, with_running(before[i as int], running)));
        },
        None => {},
    }
}

/// Clears the running flag of every configuration, keeping all else.
pub fn reset_running(configs: &mut Vec<ProxyConfig>)
    ensures
        final(configs)@.len() == old(configs)@.len(),
        forall|i: int| 0 <= i < old(configs)@.len()
            ==> #[trigger] final(configs)@[i] == with_running(old(configs)@[i], false),
{
    let ghost initial = configs@;
    let mut i: usize = 0;
    while i < configs.len()
        invariant
            i <= configs@.len(),
            configs@.len() == initial.len(),
            forall|j: int| 0 <= j < i ==> #[trigger] configs@[j] == with_running(initial[j], false),
            forall|j: int| i <= j < configs@.len() ==> #[trigger] configs@[j] == initial[j],
        decreases configs.len() - i,
    {
        let mut c = configs.remove(i);
        c.is_running = false;
        configs.insert(i, c);
        i = i + 1;
    }
}

/// The configurations as they stand when the application starts: nothing
/// runs yet, so no running flag survives; unreadable data counts as none.
pub fn startup_configs(stored: Stored) -> (r: Vec<ProxyConfig>)
    ensures
        r@.len() == stored_or_empty(stored).len(),
        forall|i: int| 0 <= i < r@.len()
            ==> #[trigger] r@[i] == with_running(stored_or_empty(stored)[i], false),
{
    let mut configs = list_configs(stored);
    reset_running(&mut configs);
    configs
}

} // verus!
