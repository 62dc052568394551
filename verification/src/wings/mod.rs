//! The daemon's API: the enumerations it speaks, with their names on the
//! wire, and the client that addresses it.

use vstd::prelude::*;
use crate::text_map::{TextMap, PortMap};

pub mod client;

verus! {

/// An error answer of the daemon.
pub struct ApiError {
    pub error: String,
}

/// What the daemon runs to install a server.
pub struct InstallationScript {
    pub container_image: String,
    pub entrypoint: String,
    pub script: String,
    /// Environment variables, each with its text value.
    pub environment: TextMap,
}

/// A folder of the host mounted into a server's container.
pub struct Mount {
    pub target: String,
    pub source: String,
    pub read_only: bool,
}

/// A schedule of a server as the daemon runs it; triggers, condition and
/// actions are JSON texts.
pub struct Schedule {
    pub uuid: u128,
    pub triggers: String,
    pub condition: String,
    pub actions: Vec<String>,
}

/// The name and description of a server.
pub struct ServerConfigurationMeta {
    pub name: String,
    pub description: String,
}

/// The address and port a server listens on by default.
pub struct ServerConfigurationAllocationsDefault {
    pub ip: String,
    pub port: u32,
}

/// The network allocations of a server: its default and every address
/// with its ports.
pub struct ServerConfigurationAllocations {
    pub force_outgoing_ip: bool,
    pub default: Option<ServerConfigurationAllocationsDefault>,
    pub mappings: PortMap,
}

/// The resource limits of a server.
pub struct ServerConfigurationBuild {
    pub memory_limit: i64,
    pub overhead_memory: i64,
    pub swap: i64,
    pub io_weight: Option<u32>,
    pub cpu_limit: i64,
    pub disk_space: u64,
    pub threads: Option<String>,
    pub oom_disabled: bool,
}

/// The egg of a server, as the daemon needs it.
pub struct ServerConfigurationEgg {
    pub id: u128,
    pub file_denylist: Vec<String>,
}

/// The system calls that a container's filter additionally allows.
pub struct ServerConfigurationContainerSeccomp {
    pub remove_allowed: Vec<String>,
}

/// The container of a server.
pub struct ServerConfigurationContainer {
    pub image: String,
    pub timezone: Option<String>,
    pub hugepages_passthrough_enabled: bool,
    pub kvm_passthrough_enabled: bool,
    pub seccomp: ServerConfigurationContainerSeccomp,
}

/// Whether and after how many seconds a stopping server is killed.
#[derive(Clone, Copy)]
pub struct ServerConfigurationAutoKill {
    pub enabled: bool,
    pub seconds: u64,
}

/// Everything the daemon needs to run a server.
pub struct ServerConfiguration {
    pub uuid: u128,
    pub start_on_completion: Option<bool>,
    pub meta: ServerConfigurationMeta,
    pub suspended: bool,
    pub invocation: String,
    pub skip_egg_scripts: bool,
    pub entrypoint: Option<Vec<String>>,
    /// Environment variables, each with its text value.
    pub environment: TextMap,
    pub labels: TextMap,
    pub backups: Vec<u128>,
    pub schedules: Vec<Schedule>,
    pub allocations: ServerConfigurationAllocations,
    pub build: ServerConfigurationBuild,
    pub mounts: Vec<Mount>,
    pub egg: ServerConfigurationEgg,
    pub container: ServerConfigurationContainer,
    pub auto_kill: ServerConfigurationAutoKill,
    pub auto_start_behavior: ServerAutoStartBehavior,
}

/// The kind of container the daemon runs in.
#[derive(Clone, Copy, PartialEq, Eq, Debug)]
pub enum AppContainerType {
    Official,
    Unknown,
    NoContainer,
}

/// The name of each app container type on the wire.
pub open spec fn app_container_type_name(x: AppContainerType) -> Seq<char> {
    match x {
        AppContainerType::Official => "official"@,
        AppContainerType::Unknown => "unknown"@,
        AppContainerType::NoContainer => "none"@,
    }
}

impl AppContainerType {
    /// The name on the wire.
    pub fn as_str(&self) -> (s: &'static str)
        ensures
            s@ == app_container_type_name(*self),
    {
        match self {
            AppContainerType::Official => "official",
            AppContainerType::Unknown => "unknown",
            AppContainerType::NoContainer => "none",
        }
    }
}

/// The formats in which the daemon packs files into an archive.
#[derive(Clone, Copy, PartialEq, Eq, Debug)]
pub enum ArchiveFormat {
    Tar,
    TarGz,
    TarXz,
    TarLzip,
    TarBz2,
    TarLz4,
    TarZstd,
    Zip,
    SevenZip,
}

/// The name of each archive format on the wire.
pub open spec fn archive_format_name(x: ArchiveFormat) -> Seq<char> {
    match x {
        ArchiveFormat::Tar => "tar"@,
        ArchiveFormat::TarGz => "tar_gz"@,
        ArchiveFormat::TarXz => "tar_xz"@,
        ArchiveFormat::TarLzip => "tar_lzip"@,
        ArchiveFormat::TarBz2 => "tar_bz2"@,
        ArchiveFormat::TarLz4 => "tar_lz4"@,
        ArchiveFormat::TarZstd => "tar_zstd"@,
        ArchiveFormat::Zip => "zip"@,
        ArchiveFormat::SevenZip => "seven_zip"@,
    }
}

impl ArchiveFormat {
    /// The name on the wire.
    pub fn as_str(&self) -> (s: &'static str)
        ensures
            s@ == archive_format_name(*self),
    {
        match self {
            ArchiveFormat::Tar => "tar",
            ArchiveFormat::TarGz => "tar_gz",
            ArchiveFormat::TarXz => "tar_xz",
            ArchiveFormat::TarLzip => "tar_lzip",
            ArchiveFormat::TarBz2 => "tar_bz2",
            ArchiveFormat::TarLz4 => "tar_lz4",
            ArchiveFormat::TarZstd => "tar_zstd",
            ArchiveFormat::Zip => "zip",
            ArchiveFormat::SevenZip => "seven_zip",
        }
    }
}

/// Where and how the daemon keeps backups.
#[derive(Clone, Copy, PartialEq, Eq, Debug)]
pub enum BackupAdapter {
    Wings,
    S3,
    DdupBak,
    Btrfs,
    Zfs,
    Restic,
}

/// The name of each backup adapter on the wire.
pub open spec fn backup_adapter_name(x: BackupAdapter) -> Seq<char> {
    match x {
        BackupAdapter::Wings => "wings"@,
        BackupAdapter::S3 => "s3"@,
        BackupAdapter::DdupBak => "ddup-bak"@,
        BackupAdapter::Btrfs => "btrfs"@,
        BackupAdapter::Zfs => "zfs"@,
        BackupAdapter::Restic => "restic"@,
    }
}

impl BackupAdapter {
    /// The name on the wire.
    pub fn as_str(&self) -> (s: &'static str)
        ensures
            s@ == backup_adapter_name(*self),
    {
        match self {
            BackupAdapter::Wings => "wings",
            BackupAdapter::S3 => "s3",
            BackupAdapter::DdupBak => "ddup-bak",
            BackupAdapter::Btrfs => "btrfs",
            BackupAdapter::Zfs => "zfs",
            BackupAdapter::Restic => "restic",
        }
    }
}

/// How hard the daemon compresses.
#[derive(Clone, Copy, PartialEq, Eq, Debug)]
pub enum CompressionLevel {
    BestSpeed,
    GoodSpeed,
    GoodCompression,
    BestCompression,
}

/// The name of each compression level on the wire.
pub open spec fn compression_level_name(x: CompressionLevel) -> Seq<char> {
    match x {
        CompressionLevel::BestSpeed => "best_speed"@,
        CompressionLevel::GoodSpeed => "good_speed"@,
        CompressionLevel::GoodCompression => "good_compression"@,
        CompressionLevel::BestCompression => "best_compression"@,
    }
}

impl CompressionLevel {
    /// The name on the wire.
    pub fn as_str(&self) -> (s: &'static str)
        ensures
            s@ == compression_level_name(*self),
    {
        match self {
            CompressionLevel::BestSpeed => "best_speed",
            CompressionLevel::GoodSpeed => "good_speed",
            CompressionLevel::GoodCompression => "good_compression",
            CompressionLevel::BestCompression => "best_compression",
        }
    }
}

/// How the daemon holds servers to their disk limit.
#[derive(Clone, Copy, PartialEq, Eq, Debug)]
pub enum DiskLimiterMode {
    NoLimiter,
    BtrfsSubvolume,
    ZfsDataset,
    XfsQuota,
    FuseQuota,
}

/// The name of each disk limiter mode on the wire.
pub open spec fn disk_limiter_mode_name(x: DiskLimiterMode) -> Seq<char> {
    match x {
        DiskLimiterMode::NoLimiter => "none"@,
        DiskLimiterMode::BtrfsSubvolume => "btrfs_subvolume"@,
        DiskLimiterMode::ZfsDataset => "zfs_dataset"@,
        DiskLimiterMode::XfsQuota => "xfs_quota"@,
        DiskLimiterMode::FuseQuota => "fuse_quota"@,
    }
}

impl DiskLimiterMode {
    /// The name on the wire.
    pub fn as_str(&self) -> (s: &'static str)
        ensures
            s@ == disk_limiter_mode_name(*self),
    {
        match self {
            DiskLimiterMode::NoLimiter => "none",
            DiskLimiterMode::BtrfsSubvolume => "btrfs_subvolume",
            DiskLimiterMode::ZfsDataset => "zfs_dataset",
            DiskLimiterMode::XfsQuota => "xfs_quota",
            DiskLimiterMode::FuseQuota => "fuse_quota",
        }
    }
}

/// Whether the daemon starts a server when it starts itself.
#[derive(Clone, Copy, PartialEq, Eq, Debug)]
pub enum ServerAutoStartBehavior {
    Always,
    UnlessStopped,
    Never,
}

/// The name of each server auto start behavior on the wire.
pub open spec fn server_auto_start_behavior_name(x: ServerAutoStartBehavior) -> Seq<char> {
    match x {
        ServerAutoStartBehavior::Always => "always"@,
        ServerAutoStartBehavior::UnlessStopped => "unless_stopped"@,
        ServerAutoStartBehavior::Never => "never"@,
    }
}

impl ServerAutoStartBehavior {
    /// The name on the wire.
    pub fn as_str(&self) -> (s: &'static str)
        ensures
            s@ == server_auto_start_behavior_name(*self),
    {
        match self {
            ServerAutoStartBehavior::Always => "always",
            ServerAutoStartBehavior::UnlessStopped => "unless_stopped",
            ServerAutoStartBehavior::Never => "never",
        }
    }
}

/// The power actions that the daemon performs on a server.
#[derive(Clone, Copy, PartialEq, Eq, Debug)]
pub enum ServerPowerAction {
    Start,
    Stop,
    Restart,
    Kill,
}

/// The name of each server power action on the wire.
pub open spec fn server_power_action_name(x: ServerPowerAction) -> Seq<char> {
    match x {
        ServerPowerAction::Start => "start"@,
        ServerPowerAction::Stop => "stop"@,
        ServerPowerAction::Restart => "restart"@,
        ServerPowerAction::Kill => "kill"@,
    }
}

impl ServerPowerAction {
    /// The name on the wire.
    pub fn as_str(&self) -> (s: &'static str)
        ensures
            s@ == server_power_action_name(*self),
    {
        match self {
            ServerPowerAction::Start => "start",
            ServerPowerAction::Stop => "stop",
            ServerPowerAction::Restart => "restart",
            ServerPowerAction::Kill => "kill",
        }
    }
}

/// The power state of a server on the daemon.
#[derive(Clone, Copy, PartialEq, Eq, Debug)]
pub enum ServerState {
    Offline,
    Starting,
    Stopping,
    Running,
}

/// The name of each server state on the wire.
pub open spec fn server_state_name(x: ServerState) -> Seq<char> {
    match x {
        ServerState::Offline => "offline"@,
        ServerState::Starting => "starting"@,
        ServerState::Stopping => "stopping"@,
        ServerState::Running => "running"@,
    }
}

impl ServerState {
    /// The name on the wire.
    pub fn as_str(&self) -> (s: &'static str)
        ensures
            s@ == server_state_name(*self),
    {
        match self {
            ServerState::Offline => "offline",
            ServerState::Starting => "starting",
            ServerState::Stopping => "stopping",
            ServerState::Running => "running",
        }
    }
}

/// The compression of deduplicated backups.
#[derive(Clone, Copy, PartialEq, Eq, Debug)]
pub enum SystemBackupsDdupBakCompressionFormat {
    Uncompressed,
    Deflate,
    Gzip,
    Brotli,
}

/// The name of each system backups ddup bak compression format on the wire.
pub open spec fn system_backups_ddup_bak_compression_format_name(x: SystemBackupsDdupBakCompressionFormat) -> Seq<char> {
    match x {
        SystemBackupsDdupBakCompressionFormat::Uncompressed => "none"@,
        SystemBackupsDdupBakCompressionFormat::Deflate => "deflate"@,
        SystemBackupsDdupBakCompressionFormat::Gzip => "gzip"@,
        SystemBackupsDdupBakCompressionFormat::Brotli => "brotli"@,
    }
}

impl SystemBackupsDdupBakCompressionFormat {
    /// The name on the wire.
    pub fn as_str(&self) -> (s: &'static str)
        ensures
            s@ == system_backups_ddup_bak_compression_format_name(*self),
    {
        match self {
            SystemBackupsDdupBakCompressionFormat::Uncompressed => "none",
            SystemBackupsDdupBakCompressionFormat::Deflate => "deflate",
            SystemBackupsDdupBakCompressionFormat::Gzip => "gzip",
            SystemBackupsDdupBakCompressionFormat::Brotli => "brotli",
        }
    }
}

/// The archive formats of server transfers.
#[derive(Clone, Copy, PartialEq, Eq, Debug)]
pub enum TransferArchiveFormat {
    Tar,
    TarGz,
    TarXz,
    TarLzip,
    TarBz2,
    TarLz4,
    TarZstd,
}

/// The name of each transfer archive format on the wire.
pub open spec fn transfer_archive_format_name(x: TransferArchiveFormat) -> Seq<char> {
    match x {
        TransferArchiveFormat::Tar => "tar"@,
        TransferArchiveFormat::TarGz => "tar_gz"@,
        TransferArchiveFormat::TarXz => "tar_xz"@,
        TransferArchiveFormat::TarLzip => "tar_lzip"@,
        TransferArchiveFormat::TarBz2 => "tar_bz2"@,
        TransferArchiveFormat::TarLz4 => "tar_lz4"@,
        TransferArchiveFormat::TarZstd => "tar_zstd"@,
    }
}

impl TransferArchiveFormat {
    /// The name on the wire.
    pub fn as_str(&self) -> (s: &'static str)
        ensures
            s@ == transfer_archive_format_name(*self),
    {
        match self {
            TransferArchiveFormat::Tar => "tar",
            TransferArchiveFormat::TarGz => "tar_gz",
            TransferArchiveFormat::TarXz => "tar_xz",
            TransferArchiveFormat::TarLzip => "tar_lzip",
            TransferArchiveFormat::TarBz2 => "tar_bz2",
            TransferArchiveFormat::TarLz4 => "tar_lz4",
            TransferArchiveFormat::TarZstd => "tar_zstd",
        }
    }
}

/// The events of the daemon's websocket.
#[derive(Clone, Copy, PartialEq, Eq, Debug)]
pub enum WebsocketEvent {
    AuthSuccess,
    TokenExpiring,
    TokenExpired,
    Auth,
    ConfigureSocket,
    SetState,
    SendLogs,
    SendCommand,
    SendStats,
    SendStatus,
    DaemonError,
    JwtError,
    Ping,
    Pong,
    Stats,
    Status,
    CustomEvent,
    ConsoleOutput,
    InstallOutput,
    ImagePullProgress,
    ImagePullCompleted,
    InstallStarted,
    InstallCompleted,
    DaemonMessage,
    BackupStarted,
    BackupProgress,
    BackupCompleted,
    BackupRestoreStarted,
    BackupRestoreProgress,
    BackupRestoreCompleted,
    TransferLogs,
    TransferStatus,
    TransferProgress,
    ScheduleStarted,
    ScheduleStepStatus,
    ScheduleStepError,
    ScheduleCompleted,
    OperationProgress,
    OperationError,
    OperationCompleted,
}

/// The name of each websocket event on the wire.
pub open spec fn websocket_event_name(x: WebsocketEvent) -> Seq<char> {
    match x {
        WebsocketEvent::AuthSuccess => "auth success"@,
        WebsocketEvent::TokenExpiring => "token expiring"@,
        WebsocketEvent::TokenExpired => "token expired"@,
        WebsocketEvent::Auth => "auth"@,
        WebsocketEvent::ConfigureSocket => "configure socket"@,
        WebsocketEvent::SetState => "set state"@,
        WebsocketEvent::SendLogs => "send logs"@,
        WebsocketEvent::SendCommand => "send command"@,
        WebsocketEvent::SendStats => "send stats"@,
        WebsocketEvent::SendStatus => "send status"@,
        WebsocketEvent::DaemonError => "daemon error"@,
        WebsocketEvent::JwtError => "jwt error"@,
        WebsocketEvent::Ping => "ping"@,
        WebsocketEvent::Pong => "pong"@,
        WebsocketEvent::Stats => "stats"@,
        WebsocketEvent::Status => "status"@,
        WebsocketEvent::CustomEvent => "custom event"@,
        WebsocketEvent::ConsoleOutput => "console output"@,
        WebsocketEvent::InstallOutput => "install output"@,
        WebsocketEvent::ImagePullProgress => "image pull progress"@,
        WebsocketEvent::ImagePullCompleted => "image pull completed"@,
        WebsocketEvent::InstallStarted => "install started"@,
        WebsocketEvent::InstallCompleted => "install completed"@,
        WebsocketEvent::DaemonMessage => "daemon message"@,
        WebsocketEvent::BackupStarted => "backup started"@,
        WebsocketEvent::BackupProgress => "backup progress"@,
        WebsocketEvent::BackupCompleted => "backup completed"@,
        WebsocketEvent::BackupRestoreStarted => "backup restore started"@,
        WebsocketEvent::BackupRestoreProgress => "backup restore progress"@,
        WebsocketEvent::BackupRestoreCompleted => "backup restore completed"@,
        WebsocketEvent::TransferLogs => "transfer logs"@,
        WebsocketEvent::TransferStatus => "transfer status"@,
        WebsocketEvent::TransferProgress => "transfer progress"@,
        WebsocketEvent::ScheduleStarted => "schedule started"@,
        WebsocketEvent::ScheduleStepStatus => "schedule step status"@,
        WebsocketEvent::ScheduleStepError => "schedule step error"@,
        WebsocketEvent::ScheduleCompleted => "schedule completed"@,
        WebsocketEvent::OperationProgress => "operation progress"@,
        WebsocketEvent::OperationError => "operation error"@,
        WebsocketEvent::OperationCompleted => "operation completed"@,
    }
}

impl WebsocketEvent {
    /// The name on the wire.
    pub fn as_str(&self) -> (s: &'static str)
        ensures
            s@ == websocket_event_name(*self),
    {
        match self {
            WebsocketEvent::AuthSuccess => "auth success",
            WebsocketEvent::TokenExpiring => "token expiring",
            WebsocketEvent::TokenExpired => "token expired",
            WebsocketEvent::Auth => "auth",
            WebsocketEvent::ConfigureSocket => "configure socket",
            WebsocketEvent::SetState => "set state",
            WebsocketEvent::SendLogs => "send logs",
            WebsocketEvent::SendCommand => "send command",
            WebsocketEvent::SendStats => "send stats",
            WebsocketEvent::SendStatus => "send status",
            WebsocketEvent::DaemonError => "daemon error",
            WebsocketEvent::JwtError => "jwt error",
            WebsocketEvent::Ping => "ping",
            WebsocketEvent::Pong => "pong",
            WebsocketEvent::Stats => "stats",
            WebsocketEvent::Status => "status",
            WebsocketEvent::CustomEvent => "custom event",
            WebsocketEvent::ConsoleOutput => "console output",
            WebsocketEvent::InstallOutput => "install output",
            WebsocketEvent::ImagePullProgress => "image pull progress",
            WebsocketEvent::ImagePullCompleted => "image pull completed",
            WebsocketEvent::InstallStarted => "install started",
            WebsocketEvent::InstallCompleted => "install completed",
            WebsocketEvent::DaemonMessage => "daemon message",
            WebsocketEvent::BackupStarted => "backup started",
            WebsocketEvent::BackupProgress => "backup progress",
            WebsocketEvent::BackupCompleted => "backup completed",
            WebsocketEvent::BackupRestoreStarted => "backup restore started",
            WebsocketEvent::BackupRestoreProgress => "backup restore progress",
            WebsocketEvent::BackupRestoreCompleted => "backup restore completed",
            WebsocketEvent::TransferLogs => "transfer logs",
            WebsocketEvent::TransferStatus => "transfer status",
            WebsocketEvent::TransferProgress => "transfer progress",
            WebsocketEvent::ScheduleStarted => "schedule started",
            WebsocketEvent::ScheduleStepStatus => "schedule step status",
            WebsocketEvent::ScheduleStepError => "schedule step error",
            WebsocketEvent::ScheduleCompleted => "schedule completed",
            WebsocketEvent::OperationProgress => "operation progress",
            WebsocketEvent::OperationError => "operation error",
            WebsocketEvent::OperationCompleted => "operation completed",
        }
    }
}

} // verus!
