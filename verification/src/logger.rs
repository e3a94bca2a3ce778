//! The logging bridge: a registry of the host's log containers, and the
//! routing of log events to them.
//!
//! The host keeps one container for each category of logs, and tells this
//! side whether it is enabled and at which level it logs. An event is routed
//! by its target, which names a category.

use vstd::prelude::*;

pub mod layer;
pub mod log;

use layer::{convert_dolphin_log_level_to_tracing_level, Level};

verus! {

/// Represents a `LogContainer` on the host's side.
#[derive(Debug)]
pub struct LogContainer {
    /// The name of the category.
    pub kind: String,
    /// The number that the host knows the container by.
    pub log_type: i32,
    pub is_enabled: bool,
    pub level: Level,
}

/// The state of the bridge: whether the subscriber has been installed, and
/// the containers that were registered, in the order of their registration.
#[derive(Debug)]
pub struct Logger {
    pub installed: bool,
    pub containers: Vec<LogContainer>,
}

/// The index of the first of `containers` that is of the kind `kind`, or
/// their number where none is.
pub open spec fn position_of(containers: Seq<LogContainer>, kind: Seq<char>) -> int
    decreases containers.len(),
{
    if containers.len() == 0 {
        0
    } else if containers[0].kind@ == kind {
        0
    } else {
        1 + position_of(containers.drop_first(), kind)
    }
}

/// The container with a new enabled state and a new level.
pub open spec fn reconfigured(container: LogContainer, enabled: bool, level: Level) -> LogContainer {
    LogContainer { is_enabled: enabled, level, ..container }
}

/// The container with a new level.
pub open spec fn releveled(container: LogContainer, level: Level) -> LogContainer {
    LogContainer { level, ..container }
}

/// `position_of` is the index of a container of the kind, before which there
/// is no other of the kind; or it is the number of containers, and none is of
/// the kind.
pub proof fn lemma_position_of(containers: Seq<LogContainer>, kind: Seq<char>)
    ensures
        0 <= position_of(containers, kind) <= containers.len(),
        position_of(containers, kind) < containers.len() ==> containers[position_of(
            containers,
            kind,
        )].kind@ == kind,
        forall|j: int|
            0 <= j < position_of(containers, kind) ==> (#[trigger] containers[j]).kind@ != kind,
    decreases containers.len(),
{
    if containers.len() > 0 && containers[0].kind@ != kind {
        let rest = containers.drop_first();
        lemma_position_of(rest, kind);
        assert forall|j: int| 0 <= j < position_of(containers, kind) implies (
        #[trigger] containers[j]).kind@ != kind by {
            if j > 0 {
                assert(containers[j] == rest[j - 1]);
            }
        }
    }
}

/// An index at which a container of the kind stands, with none of the kind
/// before it, is `position_of`.
pub proof fn lemma_position_is_first(containers: Seq<LogContainer>, kind: Seq<char>, i: int)
    requires
        0 <= i <= containers.len(),
        i < containers.len() ==> containers[i].kind@ == kind,
        forall|j: int| 0 <= j < i ==> (#[trigger] containers[j]).kind@ != kind,
    ensures
        position_of(containers, kind) == i,
    decreases containers.len(),
{
    if containers.len() > 0 && i > 0 {
        let rest = containers.drop_first();
        assert(containers[0].kind@ != kind);
        assert forall|j: int| 0 <= j < i - 1 implies (#[trigger] rest[j]).kind@ != kind by {
            assert(rest[j] == containers[j + 1]);
        }
        lemma_position_is_first(rest, kind, i - 1);
    }
}

impl Logger {
    /// A bridge with no container, whose subscriber is not installed yet.
    pub fn new() -> (logger: Self)
        ensures
            !logger.installed,
            logger.containers@ == Seq::<LogContainer>::empty(),
    {
        Logger { installed: false, containers: Vec::new() }
    }
}

/// Initializes the bridge. Returns whether the subscriber is to be installed
/// now: it is on the first call, and never again.
pub fn init(logger: &mut Logger) -> (install: bool)
    ensures
        install == !old(logger).installed,
        final(logger).installed,
        final(logger).containers == old(logger).containers,
{
    let install = !logger.installed;
    logger.installed = true;
    install
}

/// Registers a log container, which mirrors a `LogContainer` of the host.
pub fn register_container(
    logger: &mut Logger,
    kind: String,
    log_type: i32,
    is_enabled: bool,
    default_log_level: i32,
)
    ensures
        final(logger).installed == old(logger).installed,
        final(logger).containers@.len() == old(logger).containers@.len() + 1,
        final(logger).containers@.drop_last() == old(logger).containers@,
        final(logger).containers@.last().kind == kind,
        final(logger).containers@.last().log_type == log_type,
        final(logger).containers@.last().is_enabled == is_enabled,
        final(logger).containers@.last().level == layer::level_of(default_log_level),
{
    let level = convert_dolphin_log_level_to_tracing_level(default_log_level);
    logger.containers.push(LogContainer { kind, log_type, is_enabled, level });
    assert(logger.containers@.drop_last() =~= old(logger).containers@);
}

/// Sets the first container of the kind `kind` to a new enabled state and a
/// new level. Where there is no such container nothing changes.
pub fn update_container(logger: &mut Logger, kind: &str, enabled: bool, level: i32)
    ensures
        final(logger).installed == old(logger).installed,
        final(logger).containers@ == ({
            let before = old(logger).containers@;
            let i = position_of(before, kind@);
            if i < before.len() {
                before.update(i, reconfigured(before[i], enabled, layer::level_of(level)))
            } else {
                before
            }
        }),
{
    let ghost before = logger.containers@;
    let wanted = String::from_str(kind);
    let mut i: usize = 0;
    while i < logger.containers.len()
        invariant
            i <= logger.containers@.len(),
            logger.containers@ == before,
            before == old(logger).containers@,
            logger.installed == old(logger).installed,
            wanted@ == kind@,
            forall|j: int| 0 <= j < i ==> (#[trigger] before[j]).kind@ != kind@,
        decreases logger.containers@.len() - i,
    {
        if logger.containers[i].kind == wanted {
            proof {
                lemma_position_is_first(before, kind@, i as int);
            }
            let new_level = convert_dolphin_log_level_to_tracing_level(level);
            let mut container = logger.containers.remove(i);
            container.is_enabled = enabled;
            container.level = new_level;
            logger.containers.insert(i, container);
            assert(logger.containers@ =~= before.update(
                i as int,
                reconfigured(before[i as int], enabled, layer::level_of(level)),
            ));
            return ;
        }
        i = i + 1;
    }
    proof {
        lemma_position_is_first(before, kind@, i as int);
    }
}

/// Sets every container to one level.
pub fn mainline_update_log_level(logger: &mut Logger, level: i32)
    ensures
        final(logger).installed == old(logger).installed,
        final(logger).containers@.len() == old(logger).containers@.len(),
        forall|i: int|
            0 <= i < old(logger).containers@.len() ==> (#[trigger] final(logger).containers@[i])
                == releveled(old(logger).containers@[i], layer::level_of(level)),
{
    let ghost before = logger.containers@;
    let new_level = convert_dolphin_log_level_to_tracing_level(level);
    let mut i: usize = 0;
    while i < logger.containers.len()
        invariant
            i <= logger.containers@.len(),
            logger.containers@.len() == before.len(),
            before == old(logger).containers@,
            logger.installed == old(logger).installed,
            new_level == layer::level_of(level),
            forall|j: int|
                0 <= j < i ==> (#[trigger] logger.containers@[j]) == releveled(
                    before[j],
                    layer::level_of(level),
                ),
            forall|j: int| i <= j < before.len() ==> (#[trigger] logger.containers@[j]) == before[j],
        decreases logger.containers@.len() - i,
    {
        let mut container = logger.containers.remove(i);
        container.level = new_level;
        logger.containers.insert(i, container);
        i = i + 1;
    }
}

} // verus!
