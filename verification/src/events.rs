//! The typed events of a server and their form for external publication.

use vstd::prelude::*;
use vstd::string::StringExecFns;
use crate::server::power::ProcessState;

verus! {

/// Network counters summed over all interfaces.
#[derive(Debug, Clone, Copy, PartialEq, Eq, Structural)]
pub struct NetworkStats {
    pub rx_bytes: u64,
    pub tx_bytes: u64,
}

/// A resource snapshot of one container. The CPU figure is in thousandths of
/// a percent of one core, so 80000 stands for 80.000 %.
#[derive(Debug, Clone, Copy, PartialEq, Eq, Structural)]
pub struct Stats {
    pub memory_bytes: u64,
    pub memory_limit_bytes: u64,
    pub cpu_absolute_milli: u128,
    pub network: NetworkStats,
    pub uptime: u64,
    pub disk_bytes: u64,
    pub disk_limit_bytes: u64,
}

/// An event of one server. Transfer progress is in hundredths of a percent.
#[derive(Debug, Clone)]
pub enum Event {
    StateChange(ProcessState),
    ConsoleOutput(Vec<u8>),
    Stats(Stats),
    InstallStarted,
    InstallOutput(Vec<u8>),
    InstallCompleted { successful: bool },
    BackupStarted { uuid: String },
    BackupCompleted { uuid: String, successful: bool, checksum: Option<String>, size: u64 },
    BackupRestoreStarted { uuid: String },
    BackupRestoreCompleted { uuid: String, successful: bool },
    TransferStarted,
    TransferProgress { progress_centi: u64 },
    TransferCompleted { successful: bool },
    ScheduleExecuting { schedule_id: String, task_index: Option<usize> },
    ServerSynced,
    ConfigurationUpdated,
}

/// The channel families events are published on.
#[derive(Debug, Clone, Copy, PartialEq, Eq, Structural)]
pub enum Channel {
    State,
    Stats,
    Console,
    Install,
    Backup,
    Schedule,
}

/// The channel an event is published on; `None` for events that are not
/// published externally.
pub open spec fn channel_of(e: Event) -> Option<Channel> {
    match e {
        Event::StateChange(_) => Some(Channel::State),
        Event::Stats(_) => Some(Channel::Stats),
        Event::ConsoleOutput(_) => Some(Channel::Console),
        Event::InstallStarted => Some(Channel::Install),
        Event::InstallCompleted { .. } => Some(Channel::Install),
        Event::InstallOutput(_) => Some(Channel::Install),
        Event::BackupStarted { .. } => Some(Channel::Backup),
        Event::BackupCompleted { .. } => Some(Channel::Backup),
        Event::ScheduleExecuting { .. } => Some(Channel::Schedule),
        _ => None,
    }
}

/// The `type` tag of the JSON envelope of a published event.
pub open spec fn type_tag_of(e: Event) -> Option<Seq<char>> {
    match e {
        Event::StateChange(_) => Some("state_change"@),
        Event::Stats(_) => Some("stats"@),
        Event::ConsoleOutput(_) => Some("console_output"@),
        Event::InstallStarted => Some("install_started"@),
        Event::InstallCompleted { .. } => Some("install_completed"@),
        Event::InstallOutput(_) => Some("install_output"@),
        Event::BackupStarted { .. } => Some("backup_started"@),
        Event::BackupCompleted { .. } => Some("backup_completed"@),
        Event::ScheduleExecuting { .. } => Some("schedule_executing"@),
        _ => None,
    }
}

/// The last segment of a channel name.
pub open spec fn channel_suffix(c: Channel) -> Seq<char> {
    match c {
        Channel::State => "state"@,
        Channel::Stats => "stats"@,
        Channel::Console => "console"@,
        Channel::Install => "install"@,
        Channel::Backup => "backup"@,
        Channel::Schedule => "schedule"@,
    }
}

/// The full channel name: `{prefix}:server:{server_id}:{suffix}`.
pub open spec fn channel_name(prefix: Seq<char>, server_id: Seq<char>, c: Channel) -> Seq<char> {
    prefix + ":server:"@ + server_id + ":"@ + channel_suffix(c)
}

/// The name of a process state as published.
pub open spec fn state_name(s: ProcessState) -> Seq<char> {
    match s {
        ProcessState::Offline => "offline"@,
        ProcessState::Starting => "starting"@,
        ProcessState::Running => "running"@,
        ProcessState::Stopping => "stopping"@,
    }
}

/// The name of a process state as published.
pub fn state_to_string(s: ProcessState) -> (r: &'static str)
    ensures
        r@ == state_name(s),
{
    match s {
        ProcessState::Offline => "offline",
        ProcessState::Starting => "starting",
        ProcessState::Running => "running",
        ProcessState::Stopping => "stopping",
    }
}

/// The channel an event is published on.
pub fn event_channel(e: &Event) -> (c: Option<Channel>)
    ensures
        c == channel_of(*e),
{
    match e {
        Event::StateChange(_) => Some(Channel::State),
        Event::Stats(_) => Some(Channel::Stats),
        Event::ConsoleOutput(_) => Some(Channel::Console),
        Event::InstallStarted => Some(Channel::Install),
        Event::InstallCompleted { .. } => Some(Channel::Install),
        Event::InstallOutput(_) => Some(Channel::Install),
        Event::BackupStarted { .. } => Some(Channel::Backup),
        Event::BackupCompleted { .. } => Some(Channel::Backup),
        Event::ScheduleExecuting { .. } => Some(Channel::Schedule),
        _ => None,
    }
}

/// The `type` tag of the JSON envelope of a published event.
pub fn event_type_tag(e: &Event) -> (t: Option<&'static str>)
    ensures
        match t {
            Some(s) => type_tag_of(*e) == Some(s@),
            None => type_tag_of(*e).is_none(),
        },
{
    match e {
        Event::StateChange(_) => Some("state_change"),
        Event::Stats(_) => Some("stats"),
        Event::ConsoleOutput(_) => Some("console_output"),
        Event::InstallStarted => Some("install_started"),
        Event::InstallCompleted { .. } => Some("install_completed"),
        Event::InstallOutput(_) => Some("install_output"),
        Event::BackupStarted { .. } => Some("backup_started"),
        Event::BackupCompleted { .. } => Some("backup_completed"),
        Event::ScheduleExecuting { .. } => Some("schedule_executing"),
        _ => None,
    }
}

/// The name of the channel of family `c` for a server.
pub fn get_channel(prefix: &str, server_id: &str, c: Channel) -> (name: String)
    ensures
        name@ == channel_name(prefix@, server_id@, c),
{
    let mut name = String::from_str(prefix);
    name.append(":server:");
    name.append(server_id);
    name.append(":");
    match c {
        Channel::State => name.append("state"),
        Channel::Stats => name.append("stats"),
        Channel::Console => name.append("console"),
        Channel::Install => name.append("install"),
        Channel::Backup => name.append("backup"),
        Channel::Schedule => name.append("schedule"),
    }
    name
}

/// An event in the form published to external consumers.
#[derive(Debug, Clone)]
pub enum RedisMessage {
    StateChange { server_id: String, state: String },
    Stats { server_id: String, stats: Stats },
    ConsoleOutput { server_id: String, output: String },
    InstallStarted { server_id: String },
    InstallCompleted { server_id: String, successful: bool },
    InstallOutput { server_id: String, output: String },
    BackupStarted { server_id: String, backup_id: String },
    BackupCompleted {
        server_id: String,
        backup_id: String,
        successful: bool,
        checksum: Option<String>,
        size: u64,
    },
    ScheduleExecuting { server_id: String, schedule_id: String, task_index: Option<usize> },
}

/// Whether `m` is the published form of `e` for the server `server_id`.
/// Console and install output are carried as text, decoded leniently.
pub open spec fn is_message_of(m: RedisMessage, server_id: Seq<char>, e: Event) -> bool {
    match (m, e) {
        (RedisMessage::StateChange { server_id: sid, state }, Event::StateChange(s)) => sid@
            == server_id && state@ == state_name(s),
        (RedisMessage::Stats { server_id: sid, stats }, Event::Stats(s)) => sid@ == server_id
            && stats == s,
        (RedisMessage::ConsoleOutput { server_id: sid, output }, Event::ConsoleOutput(data)) => sid@
            == server_id && output@ == crate::text::lossy_decode(data@),
        (RedisMessage::InstallStarted { server_id: sid }, Event::InstallStarted) => sid@
            == server_id,
        (
            RedisMessage::InstallCompleted { server_id: sid, successful },
            Event::InstallCompleted { successful: ok },
        ) => sid@ == server_id && successful == ok,
        (RedisMessage::InstallOutput { server_id: sid, output }, Event::InstallOutput(data)) => sid@
            == server_id && output@ == crate::text::lossy_decode(data@),
        (
            RedisMessage::BackupStarted { server_id: sid, backup_id },
            Event::BackupStarted { uuid },
        ) => sid@ == server_id && backup_id@ == uuid@,
        (
            RedisMessage::BackupCompleted { server_id: sid, backup_id, successful, checksum, size },
            Event::BackupCompleted { uuid, successful: ok, checksum: sum, size: n },
        ) => sid@ == server_id && backup_id@ == uuid@ && successful == ok && size == n && (match (
            checksum,
            sum,
        ) {
            (Some(a), Some(b)) => a@ == b@,
            (None, None) => true,
            _ => false,
        }),
        (
            RedisMessage::ScheduleExecuting { server_id: sid, schedule_id, task_index },
            Event::ScheduleExecuting { schedule_id: id, task_index: index },
        ) => sid@ == server_id && schedule_id@ == id@ && task_index == index,
        _ => false,
    }
}

/// The published form of an event: `None` exactly for the events that have
/// no channel.
pub fn event_to_message(server_id: &String, event: &Event) -> (m: Option<RedisMessage>)
    ensures
        m.is_some() == channel_of(*event).is_some(),
        m.is_some() ==> is_message_of(m.unwrap(), server_id@, *event),
{
    match event {
        Event::StateChange(state) => Some(
            RedisMessage::StateChange {
                server_id: server_id.clone(),
                state: String::from_str(state_to_string(*state)),
            },
        ),
        Event::Stats(stats) => Some(RedisMessage::Stats { server_id: server_id.clone(), stats: *stats }),
        Event::ConsoleOutput(data) => Some(
            RedisMessage::ConsoleOutput {
                server_id: server_id.clone(),
                output: crate::text::lossy_text(data.as_slice()),
            },
        ),
        Event::InstallStarted => Some(RedisMessage::InstallStarted { server_id: server_id.clone() }),
        Event::InstallCompleted { successful } => Some(
            RedisMessage::InstallCompleted { server_id: server_id.clone(), successful: *successful },
        ),
        Event::InstallOutput(data) => Some(
            RedisMessage::InstallOutput {
                server_id: server_id.clone(),
                output: crate::text::lossy_text(data.as_slice()),
            },
        ),
        Event::BackupStarted { uuid } => Some(
            RedisMessage::BackupStarted { server_id: server_id.clone(), backup_id: uuid.clone() },
        ),
        Event::BackupCompleted { uuid, successful, checksum, size } => {
            let sum: Option<String> = match checksum {
                Some(c) => Some(c.clone()),
                None => None,
            };
            Some(
                RedisMessage::BackupCompleted {
                    server_id: server_id.clone(),
                    backup_id: uuid.clone(),
                    successful: *successful,
                    checksum: sum,
                    size: *size,
                },
            )
        },
        Event::ScheduleExecuting { schedule_id, task_index } => Some(
            RedisMessage::ScheduleExecuting {
                server_id: server_id.clone(),
                schedule_id: schedule_id.clone(),
                task_index: *task_index,
            },
        ),
        _ => None,
    }
}

/// Default capacity of an event bus.
pub const EVENT_BUS_CAPACITY: usize = 1024;

/// A counter after one more occurrence, if there was one; it stops at the
/// largest value.
pub open spec fn counted(count: u64, occurred: bool) -> u64 {
    if occurred && count < u64::MAX {
        (count + 1) as u64
    } else {
        count
    }
}

/// The event bus of one server. Publishing never waits; a subscriber that
/// falls behind misses events.
pub struct EventBus {
    sender: tokio::sync::broadcast::Sender<Event>,
    published: u64,
    undelivered: u64,
}

impl EventBus {
    /// The number of events published.
    pub closed spec fn published_count(&self) -> u64 {
        self.published
    }

    /// The number of events published while nobody was subscribed.
    pub closed spec fn undelivered_count(&self) -> u64 {
        self.undelivered
    }

    /// A bus with the default capacity and no subscriber.
    pub fn new() -> (b: Self)
        ensures
            b.published_count() == 0,
            b.undelivered_count() == 0,
    {
        let (sender, _receiver) = crate::system::sink::open_channel(EVENT_BUS_CAPACITY);
        EventBus { sender, published: 0, undelivered: 0 }
    }

    /// A receiver of every event published from now on.
    pub fn subscribe(&self) -> (r: tokio::sync::broadcast::Receiver<Event>) {
        crate::system::sink::new_receiver(&self.sender)
    }

    /// Counts a publication and whether a subscriber was there to take it.
    pub fn note(&mut self, delivered: bool)
        ensures
            final(self).published_count() == counted(old(self).published_count(), true),
            final(self).undelivered_count() == counted(old(self).undelivered_count(), !delivered),
    {
        if self.published < u64::MAX {
            self.published = self.published + 1;
        }
        if !delivered && self.undelivered < u64::MAX {
            self.undelivered = self.undelivered + 1;
        }
    }

    /// Publishes an event to the subscribers of the moment and reports
    /// whether there were any. The publication is counted, and counted as
    /// undelivered exactly when nobody took it.
    pub fn publish(&mut self, event: Event) -> (delivered: bool)
        ensures
            final(self).published_count() == counted(old(self).published_count(), true),
            final(self).undelivered_count() == counted(old(self).undelivered_count(), !delivered),
    {
        let delivered = crate::system::sink::broadcast(&self.sender, event);
        self.note(delivered);
        delivered
    }

    /// The number of subscribers.
    pub fn subscriber_count(&self) -> (n: usize) {
        crate::system::sink::count_receivers(&self.sender)
    }
}

} // verus!
