//! Servers: their record, the permissions their websocket hands out, the
//! checks before an installation or a transfer, the configuration the
//! daemon runs them with, and their updates.

use vstd::prelude::*;
use crate::models::{append_columns, column_list, column_pairs, pair_views, prefix_text, prefixed_columns};
use crate::errors::{ApiRefusal, CONFLICT};
use crate::ids::{spec_uuid_short, uuid_short_of};
use crate::models::egg_configuration::ApiEggConfiguration;
use crate::models::nest_egg::{nest_egg_column_list, NestEgg, ProcessConfiguration};
use crate::models::{pick, set_if, ModelError};
use crate::ordered_map::{group, list_view, group_pairs, pairs_view};
use crate::text_map::{TextMap, PortMap, text_map_pairs, port_map_pairs, view_collect, text_pairs_view, text_map_collect, new_text_map, port_map_of_groups, port_groups_view, lemma_group_pairs_distinct};
use crate::urls::{host_of_url, url_host, replace_url_path, url_with_path};
use crate::ignore_rules::{globs_hide, spec_is_ignored};
use crate::random::new_uuid_v4;
use crate::ids::{uuid_hyphenated, uuid_text};
use crate::text::{push_signed_decimal, push_str, signed_decimal, text_eq};
use crate::validation::{texts, flag, chars_within, opt_chars_within, opt2_chars_within, note, text_within, opt_text_within, opt2_text_within};
use crate::wings::{self, InstallationScript, Mount, Schedule, ServerConfiguration, ServerConfigurationAllocations, ServerConfigurationAllocationsDefault, ServerConfigurationAutoKill, ServerConfigurationBuild, ServerConfigurationContainer, ServerConfigurationContainerSeccomp, ServerConfigurationEgg, ServerConfigurationMeta};

verus! {

/// What a server is busy with, where it is busy.
#[derive(Clone, Copy, PartialEq, Eq, Debug)]
pub enum ServerStatus {
    Installing,
    InstallFailed,
    RestoringBackup,
}

/// The name of a status on the wire.
pub open spec fn status_name(s: ServerStatus) -> Seq<char> {
    match s {
        ServerStatus::Installing => "installing"@,
        ServerStatus::InstallFailed => "install_failed"@,
        ServerStatus::RestoringBackup => "restoring_backup"@,
    }
}

impl ServerStatus {
    /// The status's name on the wire.
    pub fn as_str(&self) -> (s: &'static str)
        ensures
            s@ == status_name(*self),
    {
        match self {
            ServerStatus::Installing => "installing",
            ServerStatus::InstallFailed => "install_failed",
            ServerStatus::RestoringBackup => "restoring_backup",
        }
    }
}

/// Whether the daemon starts a server when it starts itself.
#[derive(Clone, Copy, PartialEq, Eq, Debug)]
pub enum ServerAutoStartBehavior {
    Always,
    UnlessStopped,
    Never,
}

/// The daemon's behavior for each of the panel's.
pub open spec fn auto_start_to_wings(b: ServerAutoStartBehavior) -> wings::ServerAutoStartBehavior {
    match b {
        ServerAutoStartBehavior::Always => wings::ServerAutoStartBehavior::Always,
        ServerAutoStartBehavior::UnlessStopped => wings::ServerAutoStartBehavior::UnlessStopped,
        ServerAutoStartBehavior::Never => wings::ServerAutoStartBehavior::Never,
    }
}

impl From<ServerAutoStartBehavior> for wings::ServerAutoStartBehavior {
    fn from(value: ServerAutoStartBehavior) -> (r: Self) {
        match value {
            ServerAutoStartBehavior::Always => wings::ServerAutoStartBehavior::Always,
            ServerAutoStartBehavior::UnlessStopped => wings::ServerAutoStartBehavior::UnlessStopped,
            ServerAutoStartBehavior::Never => wings::ServerAutoStartBehavior::Never,
        }
    }
}

impl vstd::std_specs::convert::FromSpecImpl<ServerAutoStartBehavior> for wings::ServerAutoStartBehavior {
    open spec fn obeys_from_spec() -> bool {
        true
    }

    open spec fn from_spec(v: ServerAutoStartBehavior) -> Self {
        auto_start_to_wings(v)
    }
}

/// The primary allocation of a server: its identifier, address and port.
pub struct ServerAllocation {
    pub uuid: u128,
    pub ip: String,
    pub port: i32,
}

/// A server as the panel stores it. Related records are held by their
/// identifiers, the egg in full.
pub struct Server {
    pub uuid: u128,
    pub uuid_short: i32,
    pub external_id: Option<String>,
    pub allocation: Option<ServerAllocation>,
    pub destination_allocation_uuid: Option<u128>,
    pub node_uuid: u128,
    pub destination_node_uuid: Option<u128>,
    pub owner_uuid: u128,
    pub egg: NestEgg,
    pub nest_uuid: u128,
    pub backup_configuration_uuid: Option<u128>,
    pub status: Option<ServerStatus>,
    pub suspended: bool,
    pub name: String,
    pub description: Option<String>,
    pub memory: i64,
    pub memory_overhead: i64,
    pub swap: i64,
    pub disk: i64,
    pub io_weight: Option<i16>,
    pub cpu: i32,
    pub pinned_cpus: Vec<i16>,
    pub startup: String,
    pub image: String,
    pub auto_kill: ServerConfigurationAutoKill,
    pub auto_start_behavior: ServerAutoStartBehavior,
    pub timezone: Option<String>,
    pub hugepages_passthrough_enabled: bool,
    pub kvm_passthrough_enabled: bool,
    pub allocation_limit: i32,
    pub database_limit: i32,
    pub backup_limit: i32,
    pub schedule_limit: i32,
    pub subuser_permissions: Option<Vec<String>>,
    pub subuser_ignored_files: Option<Vec<String>>,
    /// Microseconds since the Unix epoch.
    pub created: i64,
}

/// The permissions that every websocket connection gets.
pub open spec fn base_permissions() -> Seq<Seq<char>> {
    seq!["websocket.connect"@, "meta.calagopus"@]
}

/// The permissions of an administrator's connection.
pub open spec fn admin_permissions() -> Seq<Seq<char>> {
    base_permissions() + seq![
        "*"@,
        "admin.websocket.errors"@,
        "admin.websocket.install"@,
        "admin.websocket.transfer"@,
    ]
}

/// The log views that the settings open to whoever may read the console.
pub open spec fn console_extras(install_logs: bool, transfer_progress: bool) -> Seq<Seq<char>> {
    (if install_logs {
        seq!["admin.websocket.install"@]
    } else {
        Seq::empty()
    }) + (if transfer_progress {
        seq!["admin.websocket.transfer"@]
    } else {
        Seq::empty()
    })
}

/// A subuser's permissions as the daemon gets them: each permission, right
/// after the log views that reading the console opens.
pub open spec fn expanded_permissions(perms: Seq<Seq<char>>, install_logs: bool, transfer_progress: bool) -> Seq<
    Seq<char>,
>
    decreases perms.len(),
{
    if perms.len() == 0 {
        Seq::empty()
    } else {
        expanded_permissions(perms.drop_last(), install_logs, transfer_progress) + (if perms.last()
            == "control.read-console"@ {
            console_extras(install_logs, transfer_progress)
        } else {
            Seq::empty()
        }) + seq![perms.last()]
    }
}

/// The permissions of a user's websocket connection to a server: all of
/// them for administrators; a subuser's own, expanded; the owner's
/// wildcard, after the log views that the settings open.
pub open spec fn spec_wings_permissions(
    admin: bool,
    subuser_permissions: Option<Seq<Seq<char>>>,
    install_logs: bool,
    transfer_progress: bool,
) -> Seq<Seq<char>> {
    if admin {
        admin_permissions()
    } else {
        match subuser_permissions {
            Some(p) => base_permissions() + expanded_permissions(p, install_logs, transfer_progress),
            None => base_permissions() + console_extras(install_logs, transfer_progress) + seq!["*"@],
        }
    }
}

/// Builds the administrator's permissions.
fn admin_permission_list() -> (r: Vec<String>)
    ensures
        texts(r@) == admin_permissions(),
{
    let mut r: Vec<String> = Vec::new();
    r.push("websocket.connect".to_owned());
    r.push("meta.calagopus".to_owned());
    r.push("*".to_owned());
    r.push("admin.websocket.errors".to_owned());
    r.push("admin.websocket.install".to_owned());
    r.push("admin.websocket.transfer".to_owned());
    assert(texts(r@) =~= admin_permissions());
    r
}

/// Appends the log views that the settings open.
fn push_console_extras(r: &mut Vec<String>, install_logs: bool, transfer_progress: bool)
    ensures
        texts(final(r)@) == texts(old(r)@) + console_extras(install_logs, transfer_progress),
{
    if install_logs {
        r.push("admin.websocket.install".to_owned());
    }
    if transfer_progress {
        r.push("admin.websocket.transfer".to_owned());
    }
    assert(texts(r@) =~= texts(old(r)@) + console_extras(install_logs, transfer_progress));
}

/// Appends `perms`, expanded.
fn push_expanded(r: &mut Vec<String>, perms: &Vec<String>, install_logs: bool, transfer_progress: bool)
    ensures
        texts(final(r)@) == texts(old(r)@) + expanded_permissions(texts(perms@), install_logs, transfer_progress),
{
    let mut i: usize = 0;
    while i < perms.len()
        invariant
            i <= perms@.len(),
            texts(r@) == texts(old(r)@) + expanded_permissions(
                texts(perms@.subrange(0, i as int)),
                install_logs,
                transfer_progress,
            ),
        decreases perms@.len() - i,
    {
        let ghost before = texts(r@);
        let ghost extra = if perms@[i as int]@ == "control.read-console"@ {
            console_extras(install_logs, transfer_progress)
        } else {
            Seq::empty()
        };
        if text_eq(perms[i].as_str(), "control.read-console") {
            push_console_extras(r, install_logs, transfer_progress);
        }
        assert(texts(r@) =~= before + extra);
        r.push(perms[i].clone());
        assert(texts(r@) =~= before + extra + seq![perms@[i as int]@]);
        proof {
            let pre = texts(perms@.subrange(0, i as int));
            let next = texts(perms@.subrange(0, i + 1));
            assert(next.drop_last() =~= pre);
            assert(next.last() == perms@[i as int]@);
            assert(texts(r@) =~= texts(old(r)@) + expanded_permissions(next, install_logs, transfer_progress));
        }
        i = i + 1;
    }
    assert(perms@.subrange(0, perms@.len() as int) =~= perms@);
}

/// The view of an optional list of texts.
pub open spec fn opt_texts(o: Option<Vec<String>>) -> Option<Seq<Seq<char>>> {
    match o {
        Some(v) => Some(texts(v@)),
        None => None,
    }
}

impl Server {
    /// The permissions of a user's websocket connection to this server;
    /// `admin` tells whether the user is an administrator, and the two
    /// flags are the settings that open installation logs and transfer
    /// progress to those who may read the console.
    pub fn wings_permissions(&self, admin: bool, install_logs: bool, transfer_progress: bool) -> (r: Vec<String>)
        ensures
            texts(r@) == spec_wings_permissions(
                admin,
                opt_texts(self.subuser_permissions),
                install_logs,
                transfer_progress,
            ),
    {
        if admin {
            return admin_permission_list();
        }
        let mut r: Vec<String> = Vec::new();
        r.push("websocket.connect".to_owned());
        r.push("meta.calagopus".to_owned());
        assert(texts(r@) =~= base_permissions());
        match &self.subuser_permissions {
            Some(perms) => {
                push_expanded(&mut r, perms, install_logs, transfer_progress);
            },
            None => {
                push_console_extras(&mut r, install_logs, transfer_progress);
                r.push("*".to_owned());
                assert(texts(r@) =~= base_permissions() + console_extras(install_logs, transfer_progress)
                    + seq!["*"@]);
            },
        }
        r
    }

    /// The permissions of a subuser's websocket connection: all of them
    /// where the subuser's user is an administrator, else the subuser's
    /// own, expanded.
    pub fn wings_subuser_permissions(
        &self,
        subuser_admin: bool,
        subuser_permissions: &Vec<String>,
        install_logs: bool,
        transfer_progress: bool,
    ) -> (r: Vec<String>)
        ensures
            texts(r@) == spec_wings_permissions(
                subuser_admin,
                Some(texts(subuser_permissions@)),
                install_logs,
                transfer_progress,
            ),
    {
        if subuser_admin {
            return admin_permission_list();
        }
        let mut r: Vec<String> = Vec::new();
        r.push("websocket.connect".to_owned());
        r.push("meta.calagopus".to_owned());
        assert(texts(r@) =~= base_permissions());
        push_expanded(&mut r, subuser_permissions, install_logs, transfer_progress);
        r
    }
}

/// Every connection starts with the base permissions, and installation
/// logs are open only to administrators, where the settings open them, or
/// where a subuser was given that permission itself.
pub proof fn law_permissions_start_with_base(
    admin: bool,
    subuser_permissions: Option<Seq<Seq<char>>>,
    install_logs: bool,
    transfer_progress: bool,
)
    ensures
        spec_wings_permissions(admin, subuser_permissions, install_logs, transfer_progress).subrange(0, 2)
            == base_permissions(),
        spec_wings_permissions(admin, subuser_permissions, install_logs, transfer_progress).contains(
            "admin.websocket.install"@,
        ) ==> admin || install_logs || (subuser_permissions matches Some(p) && p.contains(
            "admin.websocket.install"@,
        )),
{
    let r = spec_wings_permissions(admin, subuser_permissions, install_logs, transfer_progress);
    assert(r.subrange(0, 2) =~= base_permissions());
    if !admin && !install_logs {
        reveal_strlit("admin.websocket.install");
        reveal_strlit("websocket.connect");
        reveal_strlit("meta.calagopus");
        reveal_strlit("admin.websocket.transfer");
        reveal_strlit("*");
        assert("admin.websocket.install"@.len() == 23);
        assert("websocket.connect"@.len() == 17);
        assert("meta.calagopus"@.len() == 14);
        assert("admin.websocket.transfer"@.len() == 24);
        assert("*"@.len() == 1);
        match subuser_permissions {
            Some(p) => {
                lemma_expanded_no_install(p, transfer_progress);
                let e = expanded_permissions(p, false, transfer_progress);
                assert(r =~= base_permissions() + e);
                if r.contains("admin.websocket.install"@) {
                    let i = choose|i: int| 0 <= i < r.len() && r[i] == "admin.websocket.install"@;
                    if i >= 2 {
                        assert(r[i] == e[i - 2]);
                        assert(p.contains("admin.websocket.install"@));
                    } else {
                        if i == 0 {
                            assert(r[i] == "websocket.connect"@);
                        } else {
                            assert(r[i] == "meta.calagopus"@);
                        }
                        assert(false);
                    }
                }
            },
            None => {
                if transfer_progress {
                    assert(r =~= seq!["websocket.connect"@, "meta.calagopus"@, "admin.websocket.transfer"@, "*"@]);
                } else {
                    assert(r =~= seq!["websocket.connect"@, "meta.calagopus"@, "*"@]);
                }
                if r.contains("admin.websocket.install"@) {
                    let i = choose|i: int| 0 <= i < r.len() && r[i] == "admin.websocket.install"@;
                    assert(r[i].len() != 23);
                    assert(false);
                }
            },
        }
    }
}

proof fn lemma_expanded_no_install(p: Seq<Seq<char>>, transfer_progress: bool)
    ensures
        forall|i: int|
            0 <= i < expanded_permissions(p, false, transfer_progress).len() ==> (
            #[trigger] expanded_permissions(p, false, transfer_progress)[i] == "admin.websocket.install"@
                ==> p.contains("admin.websocket.install"@)),
    decreases p.len(),
{
    if p.len() > 0 {
        lemma_expanded_no_install(p.drop_last(), transfer_progress);
        reveal_strlit("admin.websocket.install");
        reveal_strlit("admin.websocket.transfer");
        let e = expanded_permissions(p, false, transfer_progress);
        let d = expanded_permissions(p.drop_last(), false, transfer_progress);
        let x = if p.last() == "control.read-console"@ && transfer_progress {
            seq!["admin.websocket.transfer"@]
        } else {
            Seq::<Seq<char>>::empty()
        };
        assert(e =~= d + x + seq![p.last()]);
        assert forall|i: int| 0 <= i < e.len() && #[trigger] e[i] == "admin.websocket.install"@ implies p.contains(
            "admin.websocket.install"@,
        ) by {
            if i < d.len() {
                assert(e[i] == d[i]);
                assert(p.drop_last().contains("admin.websocket.install"@));
                let k = choose|k: int| 0 <= k < p.drop_last().len() && p.drop_last()[k] == "admin.websocket.install"@;
                assert(p[k] == "admin.websocket.install"@);
            } else if i < d.len() + x.len() {
                assert(e[i] == x[i - d.len()]);
                assert(e[i] == "admin.websocket.transfer"@);
            } else {
                assert(e[i] == p.last());
                assert(p[p.len() - 1] == "admin.websocket.install"@);
            }
        }
    }
}

proof fn lemma_expanded_granted(p: Seq<Seq<char>>, install_logs: bool, transfer_progress: bool, x: Seq<char>)
    ensures
        expanded_permissions(p, install_logs, transfer_progress).contains(x) ==> p.contains(x) || (p.contains(
            "control.read-console"@,
        ) && ((install_logs && x == "admin.websocket.install"@) || (transfer_progress && x
            == "admin.websocket.transfer"@))),
    decreases p.len(),
{
    if p.len() > 0 {
        let d = p.drop_last();
        lemma_expanded_granted(d, install_logs, transfer_progress, x);
        let e = expanded_permissions(p, install_logs, transfer_progress);
        let de = expanded_permissions(d, install_logs, transfer_progress);
        let extra = if p.last() == "control.read-console"@ {
            console_extras(install_logs, transfer_progress)
        } else {
            Seq::<Seq<char>>::empty()
        };
        assert(e =~= de + extra + seq![p.last()]);
        if e.contains(x) {
            let i = choose|i: int| 0 <= i < e.len() && e[i] == x;
            if i < de.len() {
                assert(de[i] == x);
                assert(de.contains(x));
                if d.contains(x) {
                    let k = choose|k: int| 0 <= k < d.len() && d[k] == x;
                    assert(p[k] == x);
                }
                if d.contains("control.read-console"@) {
                    let k = choose|k: int| 0 <= k < d.len() && d[k] == "control.read-console"@;
                    assert(p[k] == "control.read-console"@);
                }
            } else if i < de.len() + extra.len() {
                assert(p[p.len() - 1] == "control.read-console"@);
                assert(extra[i - de.len()] == x);
            } else {
                assert(p[p.len() - 1] == x);
            }
        }
    }
}

/// A subuser's connection holds nothing it was not given: each of its
/// permissions is a base permission, one of the subuser's own, or a log
/// view that the settings open to those who may read the console.
pub proof fn law_subuser_permissions_are_granted(
    p: Seq<Seq<char>>,
    install_logs: bool,
    transfer_progress: bool,
    x: Seq<char>,
)
    ensures
        spec_wings_permissions(false, Some(p), install_logs, transfer_progress).contains(x) ==> base_permissions().contains(
            x,
        ) || p.contains(x) || (p.contains("control.read-console"@) && ((install_logs && x
            == "admin.websocket.install"@) || (transfer_progress && x == "admin.websocket.transfer"@))),
{
    lemma_expanded_granted(p, install_logs, transfer_progress, x);
    let e = expanded_permissions(p, install_logs, transfer_progress);
    let r = spec_wings_permissions(false, Some(p), install_logs, transfer_progress);
    assert(r =~= base_permissions() + e);
    if r.contains(x) {
        let i = choose|i: int| 0 <= i < r.len() && r[i] == x;
        if i < 2 {
            assert(base_permissions()[i] == x);
        } else {
            assert(e[i - 2] == x);
        }
    }
}

/// The claims of a token that a node presents to another.
pub struct TransferClaims {
    pub issuer: String,
    pub subject: Option<String>,
    pub audience: Vec<String>,
    pub expiration_time: Option<i64>,
    pub not_before: Option<i64>,
    pub issued_at: Option<i64>,
    pub jwt_id: String,
}

/// Where a transfer cannot start, in the order checked: a transfer is
/// already under way, the destination is its own node, or the server has a
/// status (it installs, failed to install or restores a backup).
pub open spec fn transfer_refusal(s: Server, destination_node_uuid: u128) -> Option<Seq<char>> {
    if s.destination_node_uuid is Some {
        Some("server is already being transferred"@)
    } else if s.node_uuid == destination_node_uuid {
        Some("destination node must be different from the current node"@)
    } else if s.status is Some {
        Some("server is in an invalid state for transferring"@)
    } else {
        None
    }
}

/// A transfer is refused with a conflict message exactly in these cases,
/// checked in this order: one already under way, then a destination that
/// is the server's own node, then a server that has a status; a server
/// with no transfer pending, no status and another node may move.
pub proof fn law_transfer_refusal(s: Server, destination_node_uuid: u128)
    ensures
        s.destination_node_uuid is Some ==> transfer_refusal(s, destination_node_uuid) == Some(
            "server is already being transferred"@,
        ),
        s.destination_node_uuid is None && s.node_uuid == destination_node_uuid ==> transfer_refusal(
            s,
            destination_node_uuid,
        ) == Some("destination node must be different from the current node"@),
        s.destination_node_uuid is None && s.node_uuid != destination_node_uuid && s.status is Some
            ==> transfer_refusal(s, destination_node_uuid) == Some("server is in an invalid state for transferring"@),
        s.destination_node_uuid is None && s.node_uuid != destination_node_uuid && s.status is None
            ==> transfer_refusal(s, destination_node_uuid) is None,
{
}

/// The message for a server that cannot be reinstalled now.
pub open spec fn reinstall_refusal_message() -> Seq<char> {
    "server is already installing or in an invalid state for reinstalling"@
}

impl Server {
    /// Checks that the server can move to the node `destination_node_uuid`:
    /// it is not moving already, the node is another one, and it has no
    /// status. Every refusal answers with a conflict.
    pub fn check_transfer(&self, destination_node_uuid: u128) -> (r: Result<(), ApiRefusal>)
        ensures
            match transfer_refusal(*self, destination_node_uuid) {
                Some(m) => r matches Err(e) && e.status == CONFLICT && e.message@ == m,
                None => r is Ok,
            },
    {
        if self.destination_node_uuid.is_some() {
            return Err(ApiRefusal { status: CONFLICT, message: "server is already being transferred".to_owned() });
        }
        if self.node_uuid == destination_node_uuid {
            return Err(
                ApiRefusal {
                    status: CONFLICT,
                    message: "destination node must be different from the current node".to_owned(),
                },
            );
        }
        if self.status.is_some() {
            return Err(
                ApiRefusal { status: CONFLICT, message: "server is in an invalid state for transferring".to_owned() },
            );
        }
        Ok(())
    }

    /// Where the destination node takes a transfer, and the header that
    /// authorizes it: the node's URL with the path `/api/transfers`, and
    /// `token` as a bearer credential. `None` where the node's URL does not
    /// parse.
    pub fn transfer_request(destination_url: &str, token: &str) -> (r: Option<(String, String)>)
        ensures
            match r {
                Some((u, h)) => url_with_path(destination_url@, "/api/transfers"@) == Some(u@) && h@
                    == "Bearer "@ + token@,
                None => url_with_path(destination_url@, "/api/transfers"@) is None,
            },
    {
        match replace_url_path(destination_url, "/api/transfers") {
            Some(u) => {
                let mut h = "Bearer ".to_owned();
                push_str(&mut h, token);
                Some((u, h))
            },
            None => None,
        }
    }

    /// The claims of the token that a transfer presents to the destination
    /// node at the time `now` (Unix seconds): issued by the panel for the
    /// server, valid for ten minutes, and identified by the source node.
    pub fn transfer_claims(&self, now: i64) -> (r: TransferClaims)
        requires
            now <= i64::MAX - 600,
        ensures
            r.issuer@ == "panel"@,
            r.subject matches Some(s) && s@ == uuid_hyphenated(self.uuid as nat),
            r.audience@.len() == 0,
            r.expiration_time == Some((now + 600) as i64),
            r.not_before is None,
            r.issued_at == Some(now),
            r.jwt_id@ == uuid_hyphenated(self.node_uuid as nat),
    {
        TransferClaims {
            issuer: "panel".to_owned(),
            subject: Some(uuid_text(self.uuid)),
            audience: Vec::new(),
            expiration_time: Some(now + 600),
            not_before: None,
            issued_at: Some(now),
            jwt_id: uuid_text(self.node_uuid),
        }
    }

    /// A reinstallation goes ahead only where the server had no status, so
    /// that marking it as installing changed a row.
    pub fn check_reinstall(rows_affected: u64) -> (r: Result<(), String>)
        ensures
            (rows_affected != 0) <==> r is Ok,
            r matches Err(m) ==> m@ == reinstall_refusal_message(),
    {
        if rows_affected == 0 {
            return Err("server is already installing or in an invalid state for reinstalling".to_owned());
        }
        Ok(())
    }

    /// The script a reinstallation runs: the one given, else the egg's,
    /// with no environment.
    pub fn installation_script(&self, given: Option<InstallationScript>) -> (r: InstallationScript)
        ensures
            match given {
                Some(g) => r == g,
                None => {
                    &&& r.container_image@ == self.egg.config_script.container@
                    &&& r.entrypoint@ == self.egg.config_script.entrypoint@
                    &&& r.script@ == self.egg.config_script.content@
                    &&& text_map_pairs(r.environment).len() == 0
                },
            },
    {
        match given {
            Some(g) => g,
            None => InstallationScript {
                container_image: self.egg.config_script.container.clone(),
                entrypoint: self.egg.config_script.entrypoint.clone(),
                script: self.egg.config_script.content.clone(),
                environment: new_text_map(),
            },
        }
    }
}

/// The backup configuration that holds for a server: its own, else its
/// node's, else its location's. `own` is the server's own where it could
/// be read; `node` is `None` where the node could not be read, else the
/// node's own and its location's.
pub fn choose_backup_configuration<T>(own: Option<T>, node: Option<(Option<T>, Option<T>)>) -> (r: Option<T>)
    ensures
        r == (match own {
            Some(c) => Some(c),
            None => match node {
                None => None,
                Some((n, l)) => match n {
                    Some(c) => Some(c),
                    None => l,
                },
            },
        }),
{
    if let Some(c) = own {
        return Some(c);
    }
    match node {
        None => None,
        Some((n, l)) => match n {
            Some(c) => Some(c),
            None => l,
        },
    }
}

/// The daemon's thread list for pinned CPUs: their numbers joined by
/// commas, or nothing where no CPU is pinned.
pub open spec fn threads_text(cpus: Seq<i16>) -> Seq<char>
    decreases cpus.len(),
{
    if cpus.len() == 0 {
        Seq::empty()
    } else if cpus.len() == 1 {
        signed_decimal(cpus[0] as int)
    } else {
        threads_text(cpus.drop_last()) + seq![','] + signed_decimal(cpus.last() as int)
    }
}

/// The pinned CPUs as the daemon's thread list.
pub fn pinned_threads(cpus: &Vec<i16>) -> (r: Option<String>)
    ensures
        match r {
            Some(t) => cpus@.len() > 0 && t@ == threads_text(cpus@),
            None => cpus@.len() == 0,
        },
{
    let mut t = String::new();
    let mut i: usize = 0;
    while i < cpus.len()
        invariant
            i <= cpus@.len(),
            t@ == threads_text(cpus@.subrange(0, i as int)),
        decreases cpus@.len() - i,
    {
        if i > 0 {
            push_str(&mut t, ",");
        }
        push_signed_decimal(&mut t, cpus[i] as i64);
        proof {
            reveal_strlit(",");
            let next = cpus@.subrange(0, i + 1);
            assert(next.drop_last() =~= cpus@.subrange(0, i as int));
            assert(next.last() == cpus@[i as int]);
            if i == 0 {
                assert(threads_text(next) == signed_decimal(next[0] as int));
            }
            assert(t@ =~= threads_text(next));
        }
        i = i + 1;
    }
    assert(cpus@.subrange(0, cpus@.len() as int) =~= cpus@);
    if cpus.len() == 0 {
        None
    } else {
        Some(t)
    }
}

/// A variable's value as the daemon gets it: its text, or the empty text
/// where it has none.
pub open spec fn value_or_empty(v: Option<String>) -> Seq<char> {
    match v {
        Some(s) => s@,
        None => Seq::empty(),
    }
}

/// The environment of a server: each variable's name with its value,
/// collected so that a later value of a name replaces an earlier one.
pub open spec fn environment_of(variables: Seq<(String, Option<String>)>) -> Seq<(Seq<char>, Seq<char>)> {
    view_collect(variables.map_values(|v: (String, Option<String>)| (v.0@, value_or_empty(v.1))))
}

/// Collects the server's environment from its variables.
pub fn collect_environment(variables: Vec<(String, Option<String>)>) -> (m: TextMap)
    ensures
        text_map_pairs(m) == environment_of(variables@),
{
    let ghost vs = variables@;
    let mut pairs: Vec<(String, String)> = Vec::new();
    let mut rest = crate::ordered_map::reversed(variables);
    let ghost n = vs.len();
    while rest.len() > 0
        invariant
            pairs@.len() + rest@.len() == n,
            n == vs.len(),
            forall|j: int| 0 <= j < rest@.len() ==> #[trigger] rest@[j] == vs[n - 1 - j],
            forall|j: int| 0 <= j < pairs@.len() ==> #[trigger] pairs@[j].0 == vs[j].0 && pairs@[j].1@
                == value_or_empty(vs[j].1),
        decreases rest@.len(),
    {
        let ghost k = pairs@.len();
        let item = rest.pop().unwrap();
        assert(item == vs[k as int]);
        let (name, value) = item;
        let value_text = match value {
            Some(v) => v,
            None => String::new(),
        };
        assert(value_text@ == value_or_empty(vs[k as int].1));
        assert(name == vs[k as int].0);
        let ghost old_pairs = pairs@;
        pairs.push((name, value_text));
        assert forall|j: int| 0 <= j < pairs@.len() implies #[trigger] pairs@[j].0 == vs[j].0 && pairs@[j].1@
            == value_or_empty(vs[j].1) by {
            if j < k {
                assert(pairs@[j] == old_pairs[j]);
            }
        }
    }
    assert(text_pairs_view(pairs@) =~= vs.map_values(|v: (String, Option<String>)| (v.0@, value_or_empty(v.1))));
    text_map_collect(pairs)
}

/// The address and port of each allocation, ports as the daemon reads
/// them.
pub open spec fn port_pairs(allocations: Seq<(String, i32)>) -> Seq<(Seq<char>, u32)> {
    allocations.map_values(|a: (String, i32)| (a.0@, a.1 as u32))
}

/// Groups the ports of the allocations under their addresses, addresses
/// in the order they first come.
pub fn allocation_mappings(allocations: Vec<(String, i32)>) -> (m: PortMap)
    ensures
        port_map_pairs(m) == group_pairs(port_pairs(allocations@)),
{
    let ghost al = allocations@;
    let mut pairs: Vec<(String, u32)> = Vec::new();
    let mut rest = crate::ordered_map::reversed(allocations);
    let ghost n = al.len();
    while rest.len() > 0
        invariant
            pairs@.len() + rest@.len() == n,
            n == al.len(),
            forall|j: int| 0 <= j < rest@.len() ==> #[trigger] rest@[j] == al[n - 1 - j],
            forall|j: int| 0 <= j < pairs@.len() ==> #[trigger] pairs@[j].0 == al[j].0 && pairs@[j].1
                == al[j].1 as u32,
        decreases rest@.len(),
    {
        let ghost k = pairs@.len();
        let item = rest.pop().unwrap();
        assert(item == al[k as int]);
        let (ip, port) = item;
        pairs.push((ip, port as u32));
    }
    assert(pairs_view(pairs@) =~= port_pairs(al));
    let groups = group(pairs);
    proof {
        assert(port_groups_view(groups.entries@) =~= list_view(groups.pairs()));
        lemma_group_pairs_distinct(port_pairs(al));
    }
    port_map_of_groups(groups.entries)
}

/// What the panel reads of a server's related records to describe it to
/// its daemon.
pub struct RemoteServerRows {
    /// Each variable of the egg with its value: the server's own where it
    /// set one, else the variable's default, if it has one.
    pub variables: Vec<(String, Option<String>)>,
    pub backups: Vec<u128>,
    pub schedules: Vec<Schedule>,
    pub mounts: Vec<Mount>,
    /// The address and port of each allocation of the server.
    pub allocations: Vec<(String, i32)>,
}

/// A schedule of a server as read: its identifier, and its triggers and
/// condition as JSON texts.
pub struct ScheduleRow {
    pub uuid: u128,
    pub triggers: String,
    pub condition: String,
}

/// The identifiers of the schedules `s`, in order.
pub open spec fn schedule_uuids(s: Seq<ScheduleRow>) -> Seq<u128> {
    s.map_values(|r: ScheduleRow| r.uuid)
}

/// The last of the first `n` positions of `s` that hold `u`.
pub open spec fn last_at(s: Seq<u128>, u: u128, n: nat) -> Option<int>
    decreases n,
{
    if n == 0 {
        None
    } else if s[n - 1] == u {
        Some(n - 1)
    } else {
        last_at(s, u, (n - 1) as nat)
    }
}

/// Whether `u` stands in `s` before position `i`.
pub open spec fn seen_before(s: Seq<u128>, u: u128, i: int) -> bool {
    exists|j: int| 0 <= j < i && s[j] == u
}

/// The actions the schedule at position `i` runs, as the steps read for
/// each schedule are filed under the schedule's identifier (a later
/// schedule with the same identifier replacing an earlier one's) and each
/// schedule then takes out what is filed under its identifier.
pub open spec fn schedule_actions(s: Seq<u128>, actions: Seq<Seq<Seq<char>>>, i: int) -> Seq<Seq<char>> {
    if seen_before(s, s[i], i) {
        Seq::empty()
    } else {
        match last_at(s, s[i], s.len()) {
            Some(k) => actions[k],
            None => Seq::empty(),
        }
    }
}

/// The texts of each schedule's actions.
pub open spec fn action_texts(actions: Seq<Vec<String>>) -> Seq<Seq<Seq<char>>> {
    actions.map_values(|a: Vec<String>| texts(a@))
}

/// A copy of a list of texts.
fn copy_texts(v: &Vec<String>) -> (r: Vec<String>)
    ensures
        texts(r@) == texts(v@),
{
    let mut r: Vec<String> = Vec::new();
    let mut i: usize = 0;
    while i < v.len()
        invariant
            i <= v@.len(),
            texts(r@) == texts(v@.subrange(0, i as int)),
        decreases v@.len() - i,
    {
        let c = v[i].clone();
        let ghost before = r@;
        r.push(c);
        assert(r@ == before.push(c));
        assert(texts(r@) =~= texts(before).push(v@[i as int]@));
        i = i + 1;
        assert(v@.subrange(0, i as int) == v@.subrange(0, i - 1).push(v@[i - 1]));
        assert(texts(r@) =~= texts(v@.subrange(0, i as int)));
    }
    assert(v@.subrange(0, i as int) =~= v@);
    r
}

/// The schedules that a server's daemon runs: each enabled schedule with
/// the actions of its steps, in step order (`actions[i]` holds those read
/// for `schedules[i]`, each already written as the daemon's action JSON).
#[verifier::spinoff_prover]
pub fn join_schedules(schedules: Vec<ScheduleRow>, actions: Vec<Vec<String>>) -> (r: Vec<Schedule>)
    requires
        actions@.len() == schedules@.len(),
    ensures
        r@.len() == schedules@.len(),
        forall|i: int|
            0 <= i < r@.len() ==> {
                &&& #[trigger] r@[i].uuid == schedules@[i].uuid
                &&& r@[i].triggers@ == schedules@[i].triggers@
                &&& r@[i].condition@ == schedules@[i].condition@
                &&& texts(r@[i].actions@) == schedule_actions(
                    schedule_uuids(schedules@),
                    action_texts(actions@),
                    i,
                )
            },
{
    let ghost ids = schedule_uuids(schedules@);
    let ghost acts = action_texts(actions@);
    let n = schedules.len();
    let mut uuids: Vec<u128> = Vec::new();
    let mut i: usize = 0;
    while i < n
        invariant
            n == schedules@.len(),
            i <= n,
            uuids@ == ids.subrange(0, i as int),
            ids == schedule_uuids(schedules@),
        decreases n - i,
    {
        uuids.push(schedules[i].uuid);
        i = i + 1;
        assert(uuids@ =~= ids.subrange(0, i as int));
    }
    assert(uuids@ =~= ids);
    let mut r: Vec<Schedule> = Vec::new();
    let mut i: usize = 0;
    while i < n
        invariant
            n == schedules@.len(),
            n == actions@.len(),
            uuids@ == ids,
            ids == schedule_uuids(schedules@),
            acts == action_texts(actions@),
            i <= n,
            r@.len() == i,
            forall|j: int|
                0 <= j < i ==> {
                    &&& #[trigger] r@[j].uuid == schedules@[j].uuid
                    &&& r@[j].triggers@ == schedules@[j].triggers@
                    &&& r@[j].condition@ == schedules@[j].condition@
                    &&& texts(r@[j].actions@) == schedule_actions(ids, acts, j)
                },
        decreases n - i,
    {
        let u = schedules[i].uuid;
        let mut seen = false;
        let mut j: usize = 0;
        while j < i
            invariant
                i < n,
                n == uuids@.len(),
                j <= i,
                u == uuids@[i as int],
                seen == seen_before(uuids@, u, j as int),
            decreases i - j,
        {
            if uuids[j] == u {
                seen = true;
            }
            j = j + 1;
        }
        let mut found: Option<usize> = None;
        let mut k: usize = n;
        while k > 0 && found.is_none()
            invariant
                n == uuids@.len(),
                k <= n,
                found is None ==> last_at(uuids@, u, n as nat) == last_at(uuids@, u, k as nat),
                found matches Some(f) ==> last_at(uuids@, u, n as nat) == Some(f as int) && f < n,
            decreases k,
        {
            if uuids[k - 1] == u {
                found = Some(k - 1);
            }
            k = k - 1;
        }
        let steps = if seen {
            Vec::new()
        } else {
            match found {
                Some(f) => copy_texts(&actions[f]),
                None => Vec::new(),
            }
        };
        proof {
            assert(texts(steps@) == schedule_actions(ids, acts, i as int));
        }
        let triggers = schedules[i].triggers.clone();
        let condition = schedules[i].condition.clone();
        let ghost before = r@;
        r.push(Schedule { uuid: u, triggers, condition, actions: steps });
        assert(forall|j: int| 0 <= j < i ==> r@[j] == before[j]);
        assert(r@[i as int].uuid == schedules@[i as int].uuid);
        i = i + 1;
    }
    assert forall|j: int| 0 <= j < r@.len() implies {
        &&& #[trigger] r@[j].uuid == schedules@[j].uuid
        &&& r@[j].triggers@ == schedules@[j].triggers@
        &&& r@[j].condition@ == schedules@[j].condition@
        &&& texts(r@[j].actions@) == schedule_actions(schedule_uuids(schedules@), action_texts(actions@), j)
    } by {
        assert(r@[j].uuid == schedules@[j].uuid);
    }
    r
}

/// A server as its daemon runs it.
pub struct RemoteApiServer {
    pub settings: ServerConfiguration,
    pub process_configuration: ProcessConfiguration,
}

impl Server {
    /// The server described for its daemon.
    pub fn into_remote_api_object(self, rows: RemoteServerRows) -> (r: RemoteApiServer)
        ensures
            r.settings.uuid == self.uuid,
            r.settings.start_on_completion is None,
            r.settings.meta.name == self.name,
            r.settings.meta.description@ == value_or_empty(self.description),
            r.settings.suspended == self.suspended,
            r.settings.invocation == self.startup,
            !r.settings.skip_egg_scripts,
            r.settings.entrypoint is None,
            text_map_pairs(r.settings.environment) == environment_of(
                rows.variables@,
            ),
            text_map_pairs(r.settings.labels).len() == 0,
            r.settings.backups == rows.backups,
            r.settings.schedules == rows.schedules,
            r.settings.allocations.force_outgoing_ip == self.egg.force_outgoing_ip,
            match self.allocation {
                Some(a) => r.settings.allocations.default matches Some(d) && d.ip == a.ip && d.port
                    == a.port as u32,
                None => r.settings.allocations.default is None,
            },
            port_map_pairs(r.settings.allocations.mappings) == group_pairs(port_pairs(rows.allocations@)),
            r.settings.build.memory_limit == self.memory,
            r.settings.build.overhead_memory == self.memory_overhead,
            r.settings.build.swap == self.swap,
            r.settings.build.io_weight == (match self.io_weight {
                Some(w) => Some(w as u32),
                None => None,
            }),
            r.settings.build.cpu_limit == self.cpu as i64,
            r.settings.build.disk_space == self.disk as u64,
            match r.settings.build.threads {
                Some(t) => self.pinned_cpus@.len() > 0 && t@ == threads_text(self.pinned_cpus@),
                None => self.pinned_cpus@.len() == 0,
            },
            r.settings.build.oom_disabled,
            r.settings.mounts == rows.mounts,
            r.settings.egg.id == self.egg.uuid,
            r.settings.egg.file_denylist == self.egg.file_denylist,
            r.settings.container.image == self.image,
            r.settings.container.timezone == self.timezone,
            r.settings.container.hugepages_passthrough_enabled == self.hugepages_passthrough_enabled,
            r.settings.container.kvm_passthrough_enabled == self.kvm_passthrough_enabled,
            r.settings.container.seccomp.remove_allowed@.len() == 0,
            r.settings.auto_kill == self.auto_kill,
            r.settings.auto_start_behavior == auto_start_to_wings(self.auto_start_behavior),
            r.process_configuration.startup == self.egg.config_startup,
            r.process_configuration.stop == self.egg.config_stop,
            r.process_configuration.configs == self.egg.config_files,
    {
        let threads = pinned_threads(&self.pinned_cpus);
        let environment = collect_environment(rows.variables);
        let mappings = allocation_mappings(rows.allocations);
        let default = match self.allocation {
            Some(a) => Some(ServerConfigurationAllocationsDefault { ip: a.ip, port: a.port as u32 }),
            None => None,
        };
        let description = match self.description {
            Some(d) => d,
            None => String::new(),
        };
        let io_weight = match self.io_weight {
            Some(w) => Some(w as u32),
            None => None,
        };
        let egg = self.egg;
        RemoteApiServer {
            settings: ServerConfiguration {
                uuid: self.uuid,
                start_on_completion: None,
                meta: ServerConfigurationMeta { name: self.name, description },
                suspended: self.suspended,
                invocation: self.startup,
                skip_egg_scripts: false,
                entrypoint: None,
                environment,
                labels: new_text_map(),
                backups: rows.backups,
                schedules: rows.schedules,
                allocations: ServerConfigurationAllocations {
                    force_outgoing_ip: egg.force_outgoing_ip,
                    default,
                    mappings,
                },
                build: ServerConfigurationBuild {
                    memory_limit: self.memory,
                    overhead_memory: self.memory_overhead,
                    swap: self.swap,
                    io_weight,
                    cpu_limit: self.cpu as i64,
                    disk_space: self.disk as u64,
                    threads,
                    oom_disabled: true,
                },
                mounts: rows.mounts,
                egg: ServerConfigurationEgg { id: egg.uuid, file_denylist: egg.file_denylist },
                container: ServerConfigurationContainer {
                    image: self.image,
                    timezone: self.timezone,
                    hugepages_passthrough_enabled: self.hugepages_passthrough_enabled,
                    kvm_passthrough_enabled: self.kvm_passthrough_enabled,
                    seccomp: ServerConfigurationContainerSeccomp { remove_allowed: Vec::new() },
                },
                auto_kill: self.auto_kill,
                auto_start_behavior: self.auto_start_behavior.into(),
            },
            process_configuration: ProcessConfiguration {
                startup: egg.config_startup,
                stop: egg.config_stop,
                configs: egg.config_files,
            },
        }
    }
}

/// The resource limits of a server as administrators set them.
#[derive(Clone, Copy)]
pub struct AdminApiServerLimits {
    pub cpu: i32,
    pub memory: i64,
    pub memory_overhead: i64,
    pub swap: i64,
    pub disk: i64,
    pub io_weight: Option<i16>,
}

/// The resource limits of a server as users see them.
#[derive(Clone, Copy)]
pub struct ApiServerLimits {
    pub cpu: i32,
    pub memory: i64,
    pub swap: i64,
    pub disk: i64,
}

/// How many allocations, databases, backups and schedules a server may
/// have.
#[derive(Clone, Copy)]
pub struct ApiServerFeatureLimits {
    pub allocations: i32,
    pub databases: i32,
    pub backups: i32,
    pub schedules: i32,
}

/// Limits are not negative, but for swap, where -1 means unlimited, and
/// the I/O weight lies between 0 and 1000.
pub open spec fn admin_limits_valid(l: AdminApiServerLimits) -> bool {
    &&& l.cpu >= 0
    &&& l.memory >= 0
    &&& l.memory_overhead >= 0
    &&& l.swap >= -1
    &&& l.disk >= 0
    &&& match l.io_weight {
        Some(w) => 0 <= w <= 1000,
        None => true,
    }
}

/// User-facing limits are not negative, but for swap.
pub open spec fn api_limits_valid(l: ApiServerLimits) -> bool {
    l.cpu >= 0 && l.memory >= 0 && l.swap >= -1 && l.disk >= 0
}

/// No feature limit is negative.
pub open spec fn feature_limits_valid(l: ApiServerFeatureLimits) -> bool {
    l.allocations >= 0 && l.databases >= 0 && l.backups >= 0 && l.schedules >= 0
}

impl AdminApiServerLimits {
    /// Tests the limits.
    pub fn is_valid(&self) -> (r: bool)
        ensures
            r == admin_limits_valid(*self),
    {
        self.cpu >= 0 && self.memory >= 0 && self.memory_overhead >= 0 && self.swap >= -1 && self.disk
            >= 0 && match self.io_weight {
            Some(w) => 0 <= w && w <= 1000,
            None => true,
        }
    }
}

impl ApiServerLimits {
    /// Tests the limits.
    pub fn is_valid(&self) -> (r: bool)
        ensures
            r == api_limits_valid(*self),
    {
        self.cpu >= 0 && self.memory >= 0 && self.swap >= -1 && self.disk >= 0
    }
}

impl ApiServerFeatureLimits {
    /// Tests the limits.
    pub fn is_valid(&self) -> (r: bool)
        ensures
            r == feature_limits_valid(*self),
    {
        self.allocations >= 0 && self.databases >= 0 && self.backups >= 0 && self.schedules >= 0
    }
}

/// No pinned CPU number is negative.
pub open spec fn cpus_valid(cpus: Seq<i16>) -> bool {
    forall|i: int| 0 <= i < cpus.len() ==> cpus[i] >= 0
}

/// Tests that no pinned CPU number is negative.
pub fn cpus_non_negative(cpus: &Vec<i16>) -> (r: bool)
    ensures
        r == cpus_valid(cpus@),
{
    let mut i: usize = 0;
    while i < cpus.len()
        invariant
            i <= cpus@.len(),
            forall|j: int| 0 <= j < i ==> cpus@[j] >= 0,
        decreases cpus@.len() - i,
    {
        if cpus[i] < 0 {
            return false;
        }
        i = i + 1;
    }
    true
}

/// The options that create a server. `timezone` is the name of a time
/// zone of the tz database; `variables` gives values to egg variables by
/// their identifiers.
pub struct CreateServerOptions {
    pub node_uuid: u128,
    pub owner_uuid: u128,
    pub egg_uuid: u128,
    pub backup_configuration_uuid: Option<u128>,
    pub allocation_uuid: Option<u128>,
    pub allocation_uuids: Vec<u128>,
    pub start_on_completion: bool,
    pub skip_installer: bool,
    pub external_id: Option<String>,
    pub name: String,
    pub description: Option<String>,
    pub limits: AdminApiServerLimits,
    pub pinned_cpus: Vec<i16>,
    pub startup: String,
    pub image: String,
    pub timezone: Option<String>,
    pub hugepages_passthrough_enabled: bool,
    pub kvm_passthrough_enabled: bool,
    pub feature_limits: ApiServerFeatureLimits,
    pub variables: Vec<(u128, String)>,
}

/// The fields of creation options that break their limits, in field order.
pub open spec fn spec_create_errors(o: CreateServerOptions) -> Seq<Seq<char>> {
    flag(!opt_chars_within(o.external_id, 1, 255), "external_id"@)
        + flag(!chars_within(o.name@, 1, 255), "name"@)
        + flag(!opt_chars_within(o.description, 1, 1024), "description"@)
        + flag(!admin_limits_valid(o.limits), "limits"@)
        + flag(!cpus_valid(o.pinned_cpus@), "pinned_cpus"@)
        + flag(!chars_within(o.startup@, 1, 8192), "startup"@)
        + flag(!chars_within(o.image@, 2, 255), "image"@)
        + flag(!feature_limits_valid(o.feature_limits), "feature_limits"@)
}

impl CreateServerOptions {
    /// The fields that break their limits; empty when the options are valid.
    pub fn validate(&self) -> (errors: Vec<String>)
        ensures
            texts(errors@) == spec_create_errors(*self),
    {
        let mut errors: Vec<String> = Vec::new();
        note(&mut errors, opt_text_within(&self.external_id, 1, 255), "external_id");
        note(&mut errors, text_within(self.name.as_str(), 1, 255), "name");
        note(&mut errors, opt_text_within(&self.description, 1, 1024), "description");
        note(&mut errors, self.limits.is_valid(), "limits");
        note(&mut errors, cpus_non_negative(&self.pinned_cpus), "pinned_cpus");
        note(&mut errors, text_within(self.startup.as_str(), 1, 8192), "startup");
        note(&mut errors, text_within(self.image.as_str(), 2, 255), "image");
        note(&mut errors, self.feature_limits.is_valid(), "feature_limits");
        assert(texts(errors@) =~= spec_create_errors(*self));
        errors
    }
}

/// The first related record of creation options that does not exist, by
/// kind: the node, the owner, the egg, then the backup configuration where
/// the options name one.
pub open spec fn create_relation_refusal(
    o: CreateServerOptions,
    node_exists: bool,
    owner_exists: bool,
    egg_exists: bool,
    backup_configuration_exists: bool,
) -> Option<Seq<char>> {
    if !node_exists {
        Some("node"@)
    } else if !owner_exists {
        Some("owner"@)
    } else if !egg_exists {
        Some("egg"@)
    } else if o.backup_configuration_uuid is Some && !backup_configuration_exists {
        Some("backup_configuration"@)
    } else {
        None
    }
}

/// The row that creating a server inserts.
pub struct NewServer {
    pub uuid: u128,
    pub uuid_short: i32,
    pub external_id: Option<String>,
    pub node_uuid: u128,
    pub owner_uuid: u128,
    pub egg_uuid: u128,
    pub backup_configuration_uuid: Option<u128>,
    pub name: String,
    pub description: Option<String>,
    pub status: Option<ServerStatus>,
    pub limits: AdminApiServerLimits,
    pub pinned_cpus: Vec<i16>,
    pub startup: String,
    pub image: String,
    pub timezone: Option<String>,
    pub hugepages_passthrough_enabled: bool,
    pub kvm_passthrough_enabled: bool,
    pub feature_limits: ApiServerFeatureLimits,
}

/// `r` is the row that options `o` insert under the identifier `uuid`: its
/// short identifier is the first 32 bits, it installs first unless the
/// installer is skipped, and every other column is the options' own.
pub open spec fn spec_new_server(r: NewServer, o: CreateServerOptions, uuid: u128) -> bool {
    &&& r.uuid == uuid
    &&& r.uuid_short == spec_uuid_short(uuid)
    &&& r.status == (if o.skip_installer {
        None
    } else {
        Some(ServerStatus::Installing)
    })
    &&& crate::commands::opt_view(r.external_id) == crate::commands::opt_view(o.external_id)
    &&& r.node_uuid == o.node_uuid
    &&& r.owner_uuid == o.owner_uuid
    &&& r.egg_uuid == o.egg_uuid
    &&& r.backup_configuration_uuid == o.backup_configuration_uuid
    &&& r.name@ == o.name@
    &&& crate::commands::opt_view(r.description) == crate::commands::opt_view(o.description)
    &&& r.limits == o.limits
    &&& r.pinned_cpus@ == o.pinned_cpus@
    &&& r.startup@ == o.startup@
    &&& r.image@ == o.image@
    &&& crate::commands::opt_view(r.timezone) == crate::commands::opt_view(o.timezone)
    &&& r.hugepages_passthrough_enabled == o.hugepages_passthrough_enabled
    &&& r.kvm_passthrough_enabled == o.kvm_passthrough_enabled
    &&& r.feature_limits == o.feature_limits
}

/// A created server's row carries what the options asked for: its node,
/// owner, egg, backup configuration, name, startup, image, limits, feature
/// limits and pass-through switches as given, the fresh identifier, and
/// no status exactly where the installer is skipped (else it installs).
pub proof fn law_new_server_fields(r: NewServer, o: CreateServerOptions, uuid: u128)
    requires
        spec_new_server(r, o, uuid),
    ensures
        r.uuid == uuid,
        o.skip_installer ==> r.status is None,
        !o.skip_installer ==> r.status == Some(ServerStatus::Installing),
        r.node_uuid == o.node_uuid,
        r.owner_uuid == o.owner_uuid,
        r.egg_uuid == o.egg_uuid,
        r.backup_configuration_uuid == o.backup_configuration_uuid,
        r.name@ == o.name@,
        r.startup@ == o.startup@,
        r.image@ == o.image@,
        r.pinned_cpus@ == o.pinned_cpus@,
        r.limits == o.limits,
        r.feature_limits == o.feature_limits,
        r.hugepages_passthrough_enabled == o.hugepages_passthrough_enabled,
        r.kvm_passthrough_enabled == o.kvm_passthrough_enabled,
{
}

/// A copy of an optional text.
fn copy_text(o: &Option<String>) -> (r: Option<String>)
    ensures
        crate::commands::opt_view(r) == crate::commands::opt_view(*o),
{
    match o {
        Some(t) => Some(t.clone()),
        None => None,
    }
}

/// A copy of a list of CPU numbers.
fn copy_cpus(v: &Vec<i16>) -> (r: Vec<i16>)
    ensures
        r@ == v@,
{
    let mut r: Vec<i16> = Vec::new();
    let mut i: usize = 0;
    while i < v.len()
        invariant
            i <= v@.len(),
            r@ == v@.subrange(0, i as int),
        decreases v@.len() - i,
    {
        r.push(v[i]);
        i = i + 1;
        assert(r@ =~= v@.subrange(0, i as int));
    }
    r
}

/// A failed insertion is retried with a new identifier while fewer than
/// this many retries were made.
pub const MAX_CREATE_RETRIES: u32 = 8;

impl CreateServerOptions {
    /// The identity and first status of a server created with the random
    /// identifier `uuid`: its short identifier is the first 32 bits, and
    /// it installs first unless the installer is skipped.
    pub fn new_server(&self, uuid: u128) -> (r: NewServer)
        ensures
            spec_new_server(r, *self, uuid),
    {
        NewServer {
            uuid,
            uuid_short: uuid_short_of(uuid),
            external_id: copy_text(&self.external_id),
            node_uuid: self.node_uuid,
            owner_uuid: self.owner_uuid,
            egg_uuid: self.egg_uuid,
            backup_configuration_uuid: self.backup_configuration_uuid,
            name: self.name.clone(),
            description: copy_text(&self.description),
            status: if self.skip_installer {
                None
            } else {
                Some(ServerStatus::Installing)
            },
            limits: self.limits,
            pinned_cpus: copy_cpus(&self.pinned_cpus),
            startup: self.startup.clone(),
            image: self.image.clone(),
            timezone: copy_text(&self.timezone),
            hugepages_passthrough_enabled: self.hugepages_passthrough_enabled,
            kvm_passthrough_enabled: self.kvm_passthrough_enabled,
            feature_limits: self.feature_limits,
        }
    }

    /// The row of a server created now, under a fresh random identifier.
    pub fn generate_new_server(&self) -> (r: NewServer)
        ensures
            (r.uuid / 0x1_0000_0000_0000_0000_000) % 16 == 4,
            (r.uuid / 0x4000_0000_0000_0000) % 4 == 2,
            spec_new_server(r, *self, r.uuid),
    {
        let uuid = new_uuid_v4();
        self.new_server(uuid)
    }

    /// Checks creation options before anything is written: options that
    /// break their limits are refused, then the first related record that
    /// does not exist: the node, the owner, the egg, then the backup
    /// configuration where the options name one.
    pub fn check(&self, node_exists: bool, owner_exists: bool, egg_exists: bool, backup_configuration_exists: bool) -> (r:
        Result<(), ModelError>)
        ensures
            spec_create_errors(*self).len() > 0 ==> (r matches Err(ModelError::Validation(e)) && texts(e@)
                == spec_create_errors(*self)),
            spec_create_errors(*self).len() == 0 ==> match create_relation_refusal(
                *self,
                node_exists,
                owner_exists,
                egg_exists,
                backup_configuration_exists,
            ) {
                Some(k) => r matches Err(ModelError::InvalidRelation(m)) && m@ == k,
                None => r is Ok,
            },
    {
        let errors = self.validate();
        if errors.len() > 0 {
            return Err(ModelError::Validation(errors));
        }
        if !node_exists {
            return Err(ModelError::InvalidRelation("node".to_owned()));
        }
        if !owner_exists {
            return Err(ModelError::InvalidRelation("owner".to_owned()));
        }
        if !egg_exists {
            return Err(ModelError::InvalidRelation("egg".to_owned()));
        }
        if self.backup_configuration_uuid.is_some() && !backup_configuration_exists {
            return Err(ModelError::InvalidRelation("backup_configuration".to_owned()));
        }
        Ok(())
    }

    /// Whether a failed insertion is tried again after `attempts` retries.
    pub fn retries_insert(attempts: u32) -> (r: bool)
        ensures
            r == (attempts < MAX_CREATE_RETRIES),
    {
        attempts < MAX_CREATE_RETRIES
    }
}

/// What happened last while a server is created.
#[derive(Clone, Copy, PartialEq, Eq, Debug)]
pub enum CreateEvent {
    /// The server's row was inserted (with its allocations and variables)
    /// and committed.
    Inserted,
    /// Inserting the row failed.
    InsertFailed,
    /// The node accepted the new server.
    NodeAccepted,
    /// The node refused the new server, or could not be reached.
    NodeRefused,
}

/// What creating a server does next.
#[derive(Clone, Copy, PartialEq, Eq, Debug)]
pub enum CreateAction {
    /// Tell the node to create the server.
    PostToNode,
    /// Insert again, under a new random identifier.
    RetryInsert,
    /// Roll the transaction back and report the insertion's error.
    RollBack,
    /// Delete the server's row and report the node's error.
    DeleteAndFail,
    /// Read the new server back and hand it out.
    Finish,
}

/// The step of server creation that follows `event`, and the number of
/// retries made after it: a failed insertion is retried while fewer than
/// `MAX_CREATE_RETRIES` retries were made, then rolled back; a committed
/// row is posted to the node; a node that refuses it has the row deleted.
pub open spec fn spec_create_step(attempts: u32, event: CreateEvent) -> (CreateAction, u32) {
    match event {
        CreateEvent::Inserted => (CreateAction::PostToNode, attempts),
        CreateEvent::InsertFailed => if attempts < MAX_CREATE_RETRIES {
            (CreateAction::RetryInsert, (attempts + 1) as u32)
        } else {
            (CreateAction::RollBack, attempts)
        },
        CreateEvent::NodeAccepted => (CreateAction::Finish, attempts),
        CreateEvent::NodeRefused => (CreateAction::DeleteAndFail, attempts),
    }
}

/// Decides the next step of server creation after `event`, with
/// `attempts` the retries made so far.
pub fn create_step(attempts: u32, event: CreateEvent) -> (r: (CreateAction, u32))
    ensures
        r == spec_create_step(attempts, event),
{
    match event {
        CreateEvent::Inserted => (CreateAction::PostToNode, attempts),
        CreateEvent::InsertFailed => if CreateServerOptions::retries_insert(attempts) {
            (CreateAction::RetryInsert, attempts + 1)
        } else {
            (CreateAction::RollBack, attempts)
        },
        CreateEvent::NodeAccepted => (CreateAction::Finish, attempts),
        CreateEvent::NodeRefused => (CreateAction::DeleteAndFail, attempts),
    }
}

/// Creation never retries without end: from at most `MAX_CREATE_RETRIES`
/// retries, any step leaves at most that many, and a retry counts one
/// more.
pub proof fn law_create_retries_bounded(attempts: u32, event: CreateEvent)
    requires
        attempts <= MAX_CREATE_RETRIES,
    ensures
        spec_create_step(attempts, event).1 <= MAX_CREATE_RETRIES,
        spec_create_step(attempts, event).0 == CreateAction::RetryInsert ==> spec_create_step(attempts, event).1
            == attempts + 1,
        spec_create_step(attempts, event).0 != CreateAction::RetryInsert ==> spec_create_step(attempts, event).1
            == attempts,
{
}

/// The options that update a server; an absent field stays as it is, and
/// `Some(None)` clears an optional one.
pub struct UpdateServerOptions {
    pub owner_uuid: Option<u128>,
    pub egg_uuid: Option<u128>,
    pub backup_configuration_uuid: Option<Option<u128>>,
    pub suspended: Option<bool>,
    pub external_id: Option<Option<String>>,
    pub name: Option<String>,
    pub description: Option<Option<String>>,
    pub limits: Option<AdminApiServerLimits>,
    pub pinned_cpus: Option<Vec<i16>>,
    pub startup: Option<String>,
    pub image: Option<String>,
    pub timezone: Option<Option<String>>,
    pub hugepages_passthrough_enabled: Option<bool>,
    pub kvm_passthrough_enabled: Option<bool>,
    pub feature_limits: Option<ApiServerFeatureLimits>,
}

/// The fields of update options that break their limits, in field order.
pub open spec fn spec_update_errors(o: UpdateServerOptions) -> Seq<Seq<char>> {
    flag(!opt2_chars_within(o.external_id, 1, 255), "external_id"@)
        + flag(!opt_chars_within(o.name, 1, 255), "name"@)
        + flag(!opt2_chars_within(o.description, 1, 1024), "description"@)
        + flag(!(match o.limits {
            Some(l) => admin_limits_valid(l),
            None => true,
        }), "limits"@)
        + flag(!(match o.pinned_cpus {
            Some(c) => cpus_valid(c@),
            None => true,
        }), "pinned_cpus"@)
        + flag(!opt_chars_within(o.startup, 1, 8192), "startup"@)
        + flag(!opt_chars_within(o.image, 2, 255), "image"@)
        + flag(!(match o.feature_limits {
            Some(l) => feature_limits_valid(l),
            None => true,
        }), "feature_limits"@)
}

impl UpdateServerOptions {
    /// The fields that break their limits; empty when the options are valid.
    pub fn validate(&self) -> (errors: Vec<String>)
        ensures
            texts(errors@) == spec_update_errors(*self),
    {
        let mut errors: Vec<String> = Vec::new();
        note(&mut errors, opt2_text_within(&self.external_id, 1, 255), "external_id");
        note(&mut errors, opt_text_within(&self.name, 1, 255), "name");
        note(&mut errors, opt2_text_within(&self.description, 1, 1024), "description");
        let limits_ok = match &self.limits {
            Some(l) => l.is_valid(),
            None => true,
        };
        note(&mut errors, limits_ok, "limits");
        let cpus_ok = match &self.pinned_cpus {
            Some(c) => cpus_non_negative(c),
            None => true,
        };
        note(&mut errors, cpus_ok, "pinned_cpus");
        note(&mut errors, opt_text_within(&self.startup, 1, 8192), "startup");
        note(&mut errors, opt_text_within(&self.image, 2, 255), "image");
        let feature_ok = match &self.feature_limits {
            Some(l) => l.is_valid(),
            None => true,
        };
        note(&mut errors, feature_ok, "feature_limits");
        assert(texts(errors@) =~= spec_update_errors(*self));
        errors
    }
}

/// `new` is `old` after an update: each field the options set takes its
/// new value (the egg the one read for `o.egg_uuid`), the limits and the
/// feature limits are replaced as a whole, every other field is kept.
pub open spec fn spec_server_updated(new: Server, old: Server, o: UpdateServerOptions, egg: Option<NestEgg>) -> bool {
    &&& new.uuid == old.uuid
    &&& new.uuid_short == old.uuid_short
    &&& new.external_id == pick(o.external_id, old.external_id)
    &&& new.allocation == old.allocation
    &&& new.destination_allocation_uuid == old.destination_allocation_uuid
    &&& new.node_uuid == old.node_uuid
    &&& new.destination_node_uuid == old.destination_node_uuid
    &&& new.owner_uuid == pick(o.owner_uuid, old.owner_uuid)
    &&& new.egg == pick(egg, old.egg)
    &&& new.nest_uuid == old.nest_uuid
    &&& new.backup_configuration_uuid == pick(o.backup_configuration_uuid, old.backup_configuration_uuid)
    &&& new.status == old.status
    &&& new.suspended == pick(o.suspended, old.suspended)
    &&& new.name == pick(o.name, old.name)
    &&& new.description == pick(o.description, old.description)
    &&& match o.limits {
        Some(l) => {
            &&& new.cpu == l.cpu
            &&& new.memory == l.memory
            &&& new.memory_overhead == l.memory_overhead
            &&& new.swap == l.swap
            &&& new.disk == l.disk
            &&& new.io_weight == l.io_weight
        },
        None => {
            &&& new.cpu == old.cpu
            &&& new.memory == old.memory
            &&& new.memory_overhead == old.memory_overhead
            &&& new.swap == old.swap
            &&& new.disk == old.disk
            &&& new.io_weight == old.io_weight
        },
    }
    &&& new.pinned_cpus == pick(o.pinned_cpus, old.pinned_cpus)
    &&& new.startup == pick(o.startup, old.startup)
    &&& new.image == pick(o.image, old.image)
    &&& new.auto_kill == old.auto_kill
    &&& new.auto_start_behavior == old.auto_start_behavior
    &&& new.timezone == pick(o.timezone, old.timezone)
    &&& new.hugepages_passthrough_enabled == pick(o.hugepages_passthrough_enabled, old.hugepages_passthrough_enabled)
    &&& new.kvm_passthrough_enabled == pick(o.kvm_passthrough_enabled, old.kvm_passthrough_enabled)
    &&& match o.feature_limits {
        Some(l) => {
            &&& new.allocation_limit == l.allocations
            &&& new.database_limit == l.databases
            &&& new.backup_limit == l.backups
            &&& new.schedule_limit == l.schedules
        },
        None => {
            &&& new.allocation_limit == old.allocation_limit
            &&& new.database_limit == old.database_limit
            &&& new.backup_limit == old.backup_limit
            &&& new.schedule_limit == old.schedule_limit
        },
    }
    &&& new.subuser_permissions == old.subuser_permissions
    &&& new.subuser_ignored_files == old.subuser_ignored_files
    &&& new.created == old.created
}

/// What an applied server update leaves: every field the options set holds
/// the options' value, every field they leave out keeps its old value, the
/// limits and feature limits are taken whole where given, the egg read for
/// a new egg identifier replaces the old one, and the identity, node,
/// allocation, status and the subuser fields never change.
pub proof fn law_server_update_sets_fields(new: Server, old: Server, o: UpdateServerOptions, egg: Option<NestEgg>)
    requires
        spec_server_updated(new, old, o, egg),
    ensures
        o.external_id matches Some(v) ==> new.external_id == v,
        o.external_id is None ==> new.external_id == old.external_id,
        o.owner_uuid matches Some(v) ==> new.owner_uuid == v,
        o.owner_uuid is None ==> new.owner_uuid == old.owner_uuid,
        o.backup_configuration_uuid matches Some(v) ==> new.backup_configuration_uuid == v,
        o.backup_configuration_uuid is None ==> new.backup_configuration_uuid == old.backup_configuration_uuid,
        o.suspended matches Some(v) ==> new.suspended == v,
        o.suspended is None ==> new.suspended == old.suspended,
        o.name matches Some(v) ==> new.name == v,
        o.name is None ==> new.name == old.name,
        o.description matches Some(v) ==> new.description == v,
        o.description is None ==> new.description == old.description,
        o.pinned_cpus matches Some(v) ==> new.pinned_cpus == v,
        o.pinned_cpus is None ==> new.pinned_cpus == old.pinned_cpus,
        o.startup matches Some(v) ==> new.startup == v,
        o.startup is None ==> new.startup == old.startup,
        o.image matches Some(v) ==> new.image == v,
        o.image is None ==> new.image == old.image,
        o.timezone matches Some(v) ==> new.timezone == v,
        o.timezone is None ==> new.timezone == old.timezone,
        o.hugepages_passthrough_enabled matches Some(v) ==> new.hugepages_passthrough_enabled == v,
        o.hugepages_passthrough_enabled is None ==> new.hugepages_passthrough_enabled == old.hugepages_passthrough_enabled,
        o.kvm_passthrough_enabled matches Some(v) ==> new.kvm_passthrough_enabled == v,
        o.kvm_passthrough_enabled is None ==> new.kvm_passthrough_enabled == old.kvm_passthrough_enabled,
        egg matches Some(e) ==> new.egg == e,
        egg is None ==> new.egg == old.egg,
        o.limits matches Some(l) ==> new.cpu == l.cpu && new.memory == l.memory && new.memory_overhead
            == l.memory_overhead && new.swap == l.swap && new.disk == l.disk && new.io_weight == l.io_weight,
        o.limits is None ==> new.cpu == old.cpu && new.memory == old.memory && new.memory_overhead
            == old.memory_overhead && new.swap == old.swap && new.disk == old.disk && new.io_weight == old.io_weight,
        o.feature_limits matches Some(l) ==> new.allocation_limit == l.allocations && new.database_limit
            == l.databases && new.backup_limit == l.backups && new.schedule_limit == l.schedules,
        o.feature_limits is None ==> new.allocation_limit == old.allocation_limit && new.database_limit
            == old.database_limit && new.backup_limit == old.backup_limit && new.schedule_limit
            == old.schedule_limit,
        new.uuid == old.uuid && new.uuid_short == old.uuid_short && new.node_uuid == old.node_uuid,
        new.allocation == old.allocation && new.destination_allocation_uuid == old.destination_allocation_uuid,
        new.destination_node_uuid == old.destination_node_uuid && new.nest_uuid == old.nest_uuid,
        new.status == old.status && new.auto_kill == old.auto_kill && new.auto_start_behavior
            == old.auto_start_behavior,
        new.subuser_permissions == old.subuser_permissions && new.subuser_ignored_files
            == old.subuser_ignored_files && new.created == old.created,
{
}

/// An update applied a second time changes nothing more: the server after
/// two equal updates is the server after one.
pub proof fn law_update_idempotent(a: Server, b: Server, c: Server, o: UpdateServerOptions, egg: Option<NestEgg>)
    requires
        spec_server_updated(b, a, o, egg),
        spec_server_updated(c, b, o, egg),
    ensures
        c == b,
{
}

/// An update that sets nothing leaves the server as it was.
pub proof fn law_empty_update_keeps(a: Server, b: Server, o: UpdateServerOptions)
    requires
        o.owner_uuid is None && o.egg_uuid is None && o.backup_configuration_uuid is None,
        o.suspended is None && o.external_id is None && o.name is None,
        o.description is None && o.limits is None && o.pinned_cpus is None,
        o.startup is None && o.image is None && o.timezone is None,
        o.hugepages_passthrough_enabled is None && o.kvm_passthrough_enabled is None,
        o.feature_limits is None,
        spec_server_updated(b, a, o, None),
    ensures
        b == a,
{
}

impl Server {
    /// Applies an update whose relations were checked: `egg` is the egg
    /// that `options.egg_uuid` names, read before. Each field the options
    /// set takes its new value; the limits and feature limits replace all
    /// of theirs at once; every other field keeps its own.
    pub fn apply_update(&mut self, options: UpdateServerOptions, egg: Option<NestEgg>)
        requires
            options.egg_uuid is Some <==> egg is Some,
        ensures
            spec_server_updated(*final(self), *old(self), options, egg),
    {
        set_if(&mut self.owner_uuid, options.owner_uuid);
        set_if(&mut self.egg, egg);
        set_if(&mut self.backup_configuration_uuid, options.backup_configuration_uuid);
        set_if(&mut self.suspended, options.suspended);
        set_if(&mut self.external_id, options.external_id);
        set_if(&mut self.name, options.name);
        set_if(&mut self.description, options.description);
        if let Some(l) = options.limits {
            self.cpu = l.cpu;
            self.memory = l.memory;
            self.memory_overhead = l.memory_overhead;
            self.swap = l.swap;
            self.disk = l.disk;
            self.io_weight = l.io_weight;
        }
        set_if(&mut self.pinned_cpus, options.pinned_cpus);
        set_if(&mut self.startup, options.startup);
        set_if(&mut self.image, options.image);
        set_if(&mut self.timezone, options.timezone);
        set_if(&mut self.hugepages_passthrough_enabled, options.hugepages_passthrough_enabled);
        set_if(&mut self.kvm_passthrough_enabled, options.kvm_passthrough_enabled);
        if let Some(l) = options.feature_limits {
            self.allocation_limit = l.allocations;
            self.database_limit = l.databases;
            self.backup_limit = l.backups;
            self.schedule_limit = l.schedules;
        }
    }
}

/// The first related record that an update names and that does not
/// exist, by kind: the owner, then the egg, then the backup configuration.
pub open spec fn server_relation_refusal(
    o: UpdateServerOptions,
    owner_exists: bool,
    egg_found: bool,
    backup_configuration_exists: bool,
) -> Option<Seq<char>> {
    if o.owner_uuid is Some && !owner_exists {
        Some("owner"@)
    } else if o.egg_uuid is Some && !egg_found {
        Some("egg"@)
    } else if (match o.backup_configuration_uuid {
        Some(Some(_)) => !backup_configuration_exists,
        _ => false,
    }) {
        Some("backup_configuration"@)
    } else {
        None
    }
}

/// The egg an update installs: the one read for the egg it names.
pub open spec fn named_egg(o: UpdateServerOptions, egg: Option<NestEgg>) -> Option<NestEgg> {
    if o.egg_uuid is Some {
        egg
    } else {
        None
    }
}

impl Server {
    /// Updates the server. Options that break their limits are refused;
    /// then an owner, egg or backup configuration that the options name and
    /// that does not exist (`owner_exists`, `egg` the egg read for
    /// `options.egg_uuid`, `backup_configuration_exists`). A refused update
    /// changes nothing; a valid one is applied.
    pub fn update(
        &mut self,
        options: UpdateServerOptions,
        owner_exists: bool,
        egg: Option<NestEgg>,
        backup_configuration_exists: bool,
    ) -> (r: Result<(), ModelError>)
        ensures
            spec_update_errors(options).len() > 0 ==> (r matches Err(ModelError::Validation(e)) && texts(e@)
                == spec_update_errors(options) && *final(self) == *old(self)),
            spec_update_errors(options).len() == 0 ==> match server_relation_refusal(
                options,
                owner_exists,
                egg is Some,
                backup_configuration_exists,
            ) {
                Some(k) => r matches Err(ModelError::InvalidRelation(m)) && m@ == k && *final(self) == *old(self),
                None => r is Ok && spec_server_updated(*final(self), *old(self), options, named_egg(options, egg)),
            },
    {
        let errors = options.validate();
        if errors.len() > 0 {
            return Err(ModelError::Validation(errors));
        }
        if options.owner_uuid.is_some() && !owner_exists {
            return Err(ModelError::InvalidRelation("owner".to_owned()));
        }
        if options.egg_uuid.is_some() && egg.is_none() {
            return Err(ModelError::InvalidRelation("egg".to_owned()));
        }
        if let Some(Some(_)) = options.backup_configuration_uuid {
            if !backup_configuration_exists {
                return Err(ModelError::InvalidRelation("backup_configuration".to_owned()));
            }
        }
        let installed = if options.egg_uuid.is_some() {
            egg
        } else {
            None
        };
        self.apply_update(options, installed);
        Ok(())
    }
}

/// How a server is named in a request: by its short identifier (eight
/// hexadecimal digits) or by its UUID.
#[derive(Clone, Copy, PartialEq, Eq, Debug)]
pub enum ServerIdentifier {
    Short(i32),
    Uuid(u128),
}

/// Why an identifier of the right length does not name a server.
#[derive(Clone, Copy, PartialEq, Eq, Debug)]
pub enum IdentifierError {
    /// Eight characters that are not a hexadecimal number.
    BadShort,
    /// Thirty-six characters that are not a UUID.
    BadUuid,
}

/// What an identifier names, by its length in bytes: eight bytes are a
/// short identifier, read as hexadecimal and taken as its 32-bit pattern;
/// thirty-six bytes are a UUID; any other length names nothing.
pub open spec fn spec_server_identifier(s: Seq<char>) -> Result<Option<ServerIdentifier>, IdentifierError> {
    let n = vstd::utf8::encode_utf8(s).len();
    if n == 8 {
        match crate::ids::hex_u32(s) {
            Some(v) => Ok(Some(ServerIdentifier::Short(v as i32))),
            None => Err(IdentifierError::BadShort),
        }
    } else if n == 36 {
        match crate::ids::uuid_parsed(s) {
            Some(u) => Ok(Some(ServerIdentifier::Uuid(u))),
            None => Err(IdentifierError::BadUuid),
        }
    } else {
        Ok(None)
    }
}

impl ServerIdentifier {
    /// Reads an identifier from a request.
    pub fn parse(identifier: &str) -> (r: Result<Option<ServerIdentifier>, IdentifierError>)
        ensures
            r == spec_server_identifier(identifier@),
    {
        let n = identifier.as_bytes().len();
        if n == 8 {
            let cs = crate::text::chars_of(identifier);
            match crate::ids::parse_hex_u32(cs.as_slice()) {
                Some(v) => Ok(Some(ServerIdentifier::Short(v as i32))),
                None => Err(IdentifierError::BadShort),
            }
        } else if n == 36 {
            match crate::ids::uuid_from_text(identifier) {
                Some(u) => Ok(Some(ServerIdentifier::Uuid(u))),
                None => Err(IdentifierError::BadUuid),
            }
        } else {
            Ok(None)
        }
    }
}

/// What deleting a server does once its databases are handled and the
/// daemon has answered.
#[derive(Clone, Copy, PartialEq, Eq, Debug)]
pub enum DeleteOutcome {
    /// The deletion is kept.
    Commit,
    /// The deletion is undone and the daemon's error is returned.
    Rollback,
}

/// The options of a deletion: `force` goes on past errors of the daemon
/// and of the server's databases.
#[derive(Clone, Copy)]
pub struct DeleteServerOptions {
    pub force: bool,
}

impl Default for DeleteServerOptions {
    /// Not forced.
    fn default() -> (r: Self)
        ensures
            !r.force,
    {
        DeleteServerOptions { force: false }
    }
}

impl DeleteServerOptions {
    /// Whether a database that could not be deleted stops the deletion.
    pub fn stops_on_database_error(&self) -> (r: bool)
        ensures
            r == !self.force,
    {
        !self.force
    }

    /// The deletion is kept where the daemon deleted the server, or where
    /// it is forced.
    pub fn outcome(&self, daemon_deleted: bool) -> (r: DeleteOutcome)
        ensures
            (r == DeleteOutcome::Commit) == (daemon_deleted || self.force),
    {
        if daemon_deleted || self.force {
            DeleteOutcome::Commit
        } else {
            DeleteOutcome::Rollback
        }
    }
}

/// The SFTP host that users connect to: the node's own setting, else the
/// host of its public URL, else of its URL, else a placeholder.
pub open spec fn spec_sftp_host(sftp_host: Option<Seq<char>>, public_url: Option<Seq<char>>, url: Seq<char>) -> Seq<char> {
    match sftp_host {
        Some(h) => h,
        None => match url_host(
            match public_url {
                Some(p) => p,
                None => url,
            },
        ) {
            Some(h) => h,
            None => "unknown.sftp.host"@,
        },
    }
}

/// What a server's API object shows of its node and location.
pub struct ServerNodeFacts {
    pub uuid: u128,
    pub name: String,
    pub maintenance_enabled: bool,
    pub location_uuid: u128,
    pub location_name: String,
    pub sftp_host: Option<String>,
    pub public_url: Option<String>,
    pub url: String,
    pub sftp_port: i32,
}

/// The host that a URL gave, or the placeholder where it gave none.
pub fn host_or_placeholder(host: Option<String>) -> (r: String)
    ensures
        r@ == match host {
            Some(h) => h@,
            None => "unknown.sftp.host"@,
        },
{
    match host {
        Some(h) => h,
        None => "unknown.sftp.host".to_owned(),
    }
}

/// The SFTP host of a node.
pub fn sftp_host(node: &ServerNodeFacts) -> (r: String)
    ensures
        r@ == spec_sftp_host(
            crate::commands::opt_view(node.sftp_host),
            crate::commands::opt_view(node.public_url),
            node.url@,
        ),
{
    match &node.sftp_host {
        Some(h) => h.clone(),
        None => {
            let target = match &node.public_url {
                Some(p) => p.as_str(),
                None => node.url.as_str(),
            };
            host_or_placeholder(host_of_url(target))
        },
    }
}

/// The permissions a user sees on a server: everything for
/// administrators, else a subuser's own, else (the owner) everything.
pub open spec fn spec_api_permissions(admin: bool, subuser_permissions: Option<Seq<Seq<char>>>) -> Seq<Seq<char>> {
    if admin {
        seq!["*"@]
    } else {
        match subuser_permissions {
            Some(p) => p,
            None => seq!["*"@],
        }
    }
}

/// What a user is shown of their permissions on a server: an administrator
/// and the owner (a user with no subuser permissions) see exactly `["*"]`;
/// a subuser sees exactly their own permissions.
pub proof fn law_api_permissions(admin: bool, subuser_permissions: Option<Seq<Seq<char>>>)
    ensures
        admin ==> spec_api_permissions(admin, subuser_permissions) == seq![seq!['*']],
        !admin && subuser_permissions is None ==> spec_api_permissions(admin, subuser_permissions) == seq![
            seq!['*'],
        ],
        !admin ==> (subuser_permissions matches Some(p) ==> spec_api_permissions(admin, subuser_permissions) == p),
{
    reveal_strlit("*");
    assert("*"@ =~= seq!['*']);
    assert(seq!["*"@] =~= seq![seq!['*']]);
}

/// What a user's websocket connection to a server may do: everything
/// starts with connecting and reading the panel's metadata; an
/// administrator then holds the wildcard and the three administrator log
/// views; the owner (no subuser permissions) holds the wildcard last.
pub proof fn law_wings_permissions(
    admin: bool,
    subuser_permissions: Option<Seq<Seq<char>>>,
    install_logs: bool,
    transfer_progress: bool,
)
    ensures
        spec_wings_permissions(admin, subuser_permissions, install_logs, transfer_progress).len() >= 2,
        spec_wings_permissions(admin, subuser_permissions, install_logs, transfer_progress).subrange(0, 2) == seq![
            "websocket.connect"@,
            "meta.calagopus"@,
        ],
        admin ==> spec_wings_permissions(admin, subuser_permissions, install_logs, transfer_progress) == seq![
            "websocket.connect"@,
            "meta.calagopus"@,
            "*"@,
            "admin.websocket.errors"@,
            "admin.websocket.install"@,
            "admin.websocket.transfer"@,
        ],
        !admin && subuser_permissions is None ==> spec_wings_permissions(
            admin,
            subuser_permissions,
            install_logs,
            transfer_progress,
        ).last() == "*"@,
{
    let w = spec_wings_permissions(admin, subuser_permissions, install_logs, transfer_progress);
    assert(w.subrange(0, 2) =~= seq!["websocket.connect"@, "meta.calagopus"@]);
    if admin {
        assert(w =~= seq![
            "websocket.connect"@,
            "meta.calagopus"@,
            "*"@,
            "admin.websocket.errors"@,
            "admin.websocket.install"@,
            "admin.websocket.transfer"@,
        ]);
    }
}

/// A server as users see it.
pub struct ApiServer {
    pub uuid: u128,
    pub uuid_short: String,
    pub allocation: Option<ServerAllocation>,
    pub egg: crate::models::nest_egg::ApiNestEgg,
    pub egg_configuration: ApiEggConfiguration,
    pub status: Option<ServerStatus>,
    pub is_owner: bool,
    pub is_suspended: bool,
    pub is_transferring: bool,
    pub permissions: Vec<String>,
    pub location_uuid: u128,
    pub location_name: String,
    pub node_uuid: u128,
    pub node_name: String,
    pub node_maintenance_enabled: bool,
    pub sftp_host: String,
    pub sftp_port: i32,
    pub name: String,
    pub description: Option<String>,
    pub limits: ApiServerLimits,
    pub feature_limits: ApiServerFeatureLimits,
    pub startup: String,
    pub image: String,
    pub auto_kill: ServerConfigurationAutoKill,
    pub auto_start_behavior: ServerAutoStartBehavior,
    pub timezone: Option<String>,
    pub created: i64,
}

/// A server as administrators see it; the related records are given as
/// their administrators' objects.
pub struct AdminApiServer<N, U, E, S, B> {
    pub uuid: u128,
    pub uuid_short: String,
    pub external_id: Option<String>,
    pub allocation: Option<ServerAllocation>,
    pub node: N,
    pub owner: U,
    pub egg: E,
    pub nest: S,
    pub backup_configuration: Option<B>,
    pub status: Option<ServerStatus>,
    pub is_suspended: bool,
    pub is_transferring: bool,
    pub name: String,
    pub description: Option<String>,
    pub limits: AdminApiServerLimits,
    pub pinned_cpus: Vec<i16>,
    pub feature_limits: ApiServerFeatureLimits,
    pub startup: String,
    pub image: String,
    pub auto_kill: ServerConfigurationAutoKill,
    pub auto_start_behavior: ServerAutoStartBehavior,
    pub timezone: Option<String>,
    pub hugepages_passthrough_enabled: bool,
    pub kvm_passthrough_enabled: bool,
    pub created: i64,
}

impl Server {
    /// The feature limits that the server's record sets.
    pub fn feature_limits(&self) -> (r: ApiServerFeatureLimits)
        ensures
            r.allocations == self.allocation_limit,
            r.databases == self.database_limit,
            r.backups == self.backup_limit,
            r.schedules == self.schedule_limit,
    {
        ApiServerFeatureLimits {
            allocations: self.allocation_limit,
            databases: self.database_limit,
            backups: self.backup_limit,
            schedules: self.schedule_limit,
        }
    }

    /// The server as the user `user_uuid` sees it; `admin` tells whether
    /// that user is an administrator.
    pub fn into_api_object(
        self,
        user_uuid: u128,
        admin: bool,
        node: ServerNodeFacts,
        egg_configuration: ApiEggConfiguration,
    ) -> (r: ApiServer)
        ensures
            r.uuid == self.uuid,
            r.uuid_short@ == crate::text::hex_fixed((self.uuid_short as u32) as nat, 8),
            r.allocation == self.allocation,
            r.egg.uuid == self.egg.uuid,
            r.egg_configuration == egg_configuration,
            r.status == self.status,
            r.is_owner == (self.owner_uuid == user_uuid),
            r.is_suspended == self.suspended,
            r.is_transferring == self.destination_node_uuid is Some,
            texts(r.permissions@) == spec_api_permissions(admin, opt_texts(self.subuser_permissions)),
            r.location_uuid == node.location_uuid,
            r.location_name == node.location_name,
            r.node_uuid == node.uuid,
            r.node_name == node.name,
            r.node_maintenance_enabled == node.maintenance_enabled,
            r.sftp_host@ == spec_sftp_host(
                crate::commands::opt_view(node.sftp_host),
                crate::commands::opt_view(node.public_url),
                node.url@,
            ),
            r.sftp_port == node.sftp_port,
            r.name == self.name,
            r.description == self.description,
            r.limits.cpu == self.cpu,
            r.limits.memory == self.memory,
            r.limits.swap == self.swap,
            r.limits.disk == self.disk,
            r.feature_limits.allocations == self.allocation_limit,
            r.feature_limits.databases == self.database_limit,
            r.feature_limits.backups == self.backup_limit,
            r.feature_limits.schedules == self.schedule_limit,
            r.startup == self.startup,
            r.image == self.image,
            r.auto_kill == self.auto_kill,
            r.auto_start_behavior == self.auto_start_behavior,
            r.timezone == self.timezone,
            r.created == self.created,
    {
        let feature_limits = self.feature_limits();
        let host = sftp_host(&node);
        let permissions = if admin {
            let v: Vec<String> = vec!["*".to_owned()];
            v
        } else {
            match self.subuser_permissions {
                Some(p) => p,
                None => {
                    let v: Vec<String> = vec!["*".to_owned()];
                    v
                },
            }
        };
        proof {
            reveal_strlit("*");
        }
        assert(texts(permissions@) =~= spec_api_permissions(admin, opt_texts(self.subuser_permissions)));
        let uuid_short = crate::ids::uuid_short_text(self.uuid_short);
        ApiServer {
            uuid: self.uuid,
            uuid_short,
            allocation: self.allocation,
            egg: self.egg.into_api_object(),
            egg_configuration,
            status: self.status,
            is_owner: self.owner_uuid == user_uuid,
            is_suspended: self.suspended,
            is_transferring: self.destination_node_uuid.is_some(),
            permissions,
            location_uuid: node.location_uuid,
            location_name: node.location_name,
            node_uuid: node.uuid,
            node_name: node.name,
            node_maintenance_enabled: node.maintenance_enabled,
            sftp_host: host,
            sftp_port: node.sftp_port,
            name: self.name,
            description: self.description,
            limits: ApiServerLimits { cpu: self.cpu, memory: self.memory, swap: self.swap, disk: self.disk },
            feature_limits,
            startup: self.startup,
            image: self.image,
            auto_kill: self.auto_kill,
            auto_start_behavior: self.auto_start_behavior,
            timezone: self.timezone,
            created: self.created,
        }
    }

    /// The server as administrators see it, with its related records'
    /// objects.
    pub fn into_admin_api_object<N, U, E, S, B>(
        self,
        node: N,
        owner: U,
        egg: E,
        nest: S,
        backup_configuration: Option<B>,
    ) -> (r: AdminApiServer<N, U, E, S, B>)
        ensures
            r.uuid == self.uuid,
            r.uuid_short@ == crate::text::hex_fixed((self.uuid_short as u32) as nat, 8),
            r.external_id == self.external_id,
            r.allocation == self.allocation,
            r.node == node,
            r.owner == owner,
            r.egg == egg,
            r.nest == nest,
            r.backup_configuration == backup_configuration,
            r.status == self.status,
            r.is_suspended == self.suspended,
            r.is_transferring == self.destination_node_uuid is Some,
            r.name == self.name,
            r.description == self.description,
            r.limits.cpu == self.cpu,
            r.limits.memory == self.memory,
            r.limits.memory_overhead == self.memory_overhead,
            r.limits.swap == self.swap,
            r.limits.disk == self.disk,
            r.limits.io_weight == self.io_weight,
            r.pinned_cpus == self.pinned_cpus,
            r.feature_limits.allocations == self.allocation_limit,
            r.feature_limits.databases == self.database_limit,
            r.feature_limits.backups == self.backup_limit,
            r.feature_limits.schedules == self.schedule_limit,
            r.startup == self.startup,
            r.image == self.image,
            r.auto_kill == self.auto_kill,
            r.auto_start_behavior == self.auto_start_behavior,
            r.timezone == self.timezone,
            r.hugepages_passthrough_enabled == self.hugepages_passthrough_enabled,
            r.kvm_passthrough_enabled == self.kvm_passthrough_enabled,
            r.created == self.created,
    {
        let feature_limits = self.feature_limits();
        let uuid_short = crate::ids::uuid_short_text(self.uuid_short);
        AdminApiServer {
            uuid: self.uuid,
            uuid_short,
            external_id: self.external_id,
            allocation: self.allocation,
            node,
            owner,
            egg,
            nest,
            backup_configuration,
            status: self.status,
            is_suspended: self.suspended,
            is_transferring: self.destination_node_uuid.is_some(),
            name: self.name,
            description: self.description,
            limits: AdminApiServerLimits {
                cpu: self.cpu,
                memory: self.memory,
                memory_overhead: self.memory_overhead,
                swap: self.swap,
                disk: self.disk,
                io_weight: self.io_weight,
            },
            pinned_cpus: self.pinned_cpus,
            feature_limits,
            startup: self.startup,
            image: self.image,
            auto_kill: self.auto_kill,
            auto_start_behavior: self.auto_start_behavior,
            timezone: self.timezone,
            hugepages_passthrough_enabled: self.hugepages_passthrough_enabled,
            kvm_passthrough_enabled: self.kvm_passthrough_enabled,
            created: self.created,
        }
    }
}

impl Server {
    /// Whether a subuser of this server may not see `path` (a directory
    /// where `is_dir`): only where the subuser has ignored files, and then
    /// as their globs say.
    pub fn is_ignored(&self, path: &str, is_dir: bool) -> (r: bool)
        ensures
            r == match self.subuser_ignored_files {
                Some(files) => spec_is_ignored(files@.map_values(|g: String| g@), path@, is_dir),
                None => false,
            },
    {
        match &self.subuser_ignored_files {
            Some(files) => globs_hide(files, path, is_dir),
            None => false,
        }
    }
}

/// Whether `v` holds the text `t`.
pub open spec fn holds_text(v: Seq<String>, t: Seq<char>) -> bool {
    exists|i: int| 0 <= i < v.len() && v[i]@ == t
}

/// Whether a user may look a server up: the server's owner, one of its
/// subusers, an administrator, or a user whose role grants the
/// administrators' permission `servers.read`. `role_admin_permissions` is
/// the administrators' permissions of the user's role, if the user has one.
pub fn user_may_access(
    owner_uuid: u128,
    user_uuid: u128,
    is_subuser: bool,
    user_admin: bool,
    role_admin_permissions: Option<&Vec<String>>,
) -> (r: bool)
    ensures
        r == (owner_uuid == user_uuid || is_subuser || user_admin || match role_admin_permissions {
            Some(p) => holds_text(p@, "servers.read"@),
            None => false,
        }),
{
    if owner_uuid == user_uuid || is_subuser || user_admin {
        return true;
    }
    match role_admin_permissions {
        None => false,
        Some(p) => {
            let mut i: usize = 0;
            while i < p.len()
                invariant
                    i <= p@.len(),
                    role_admin_permissions == Some(p),
                    !(owner_uuid == user_uuid || is_subuser || user_admin),
                    forall|j: int| 0 <= j < i ==> p@[j]@ != "servers.read"@,
                decreases p@.len() - i,
            {
                if text_eq(p[i].as_str(), "servers.read") {
                    assert(p@[i as int]@ == "servers.read"@);
                    return true;
                }
                i = i + 1;
            }
            false
        },
    }
}

/// How long a server looked up by a user stays cached, in seconds.
pub const USER_SERVER_TTL: u64 = 5;

/// The cache key of a server as the user `user` looks it up by
/// `identifier`.
pub fn user_server_cache_key(user: u128, identifier: &str) -> (r: String)
    ensures
        r@ == "user::"@ + uuid_hyphenated(user as nat) + "::server::"@ + identifier@,
{
    let mut r = "user::".to_owned();
    let u = uuid_text(user);
    push_str(&mut r, u.as_str());
    push_str(&mut r, "::server::");
    push_str(&mut r, identifier);
    r
}

proof fn lemma_hex_char_value(d: nat)
    requires
        d < 16,
    ensures
        crate::ids::hex_value(crate::text::hex_char(d)) == Some(d),
        '0' <= crate::text::hex_char(d) <= 'f',
        crate::text::hex_char(d) != '+',
{
}

proof fn lemma_hex_fixed_shape(n: nat, w: nat)
    ensures
        crate::text::hex_fixed(n, w).len() == w,
        crate::ids::hex_number(crate::text::hex_fixed(n, w)) == Some(
            ((n as int) % vstd::arithmetic::power::pow(16, w)) as nat,
        ),
        vstd::utf8::is_ascii_chars(crate::text::hex_fixed(n, w)),
        forall|i: int| 0 <= i < w ==> #[trigger] crate::text::hex_fixed(n, w)[i] != '+',
    decreases w,
{
    reveal(vstd::arithmetic::power::pow);
    if w > 0 {
        let h = crate::text::hex_fixed(n, w);
        let t = crate::text::hex_fixed(n / 16, (w - 1) as nat);
        lemma_hex_fixed_shape(n / 16, (w - 1) as nat);
        lemma_hex_char_value(n % 16);
        assert(h.drop_last() =~= t);
        let p = vstd::arithmetic::power::pow(16, (w - 1) as nat);
        let ni = n as int;
        vstd::arithmetic::power::lemma_pow_positive(16, (w - 1) as nat);
        assert(vstd::arithmetic::power::pow(16, w) == 16 * p);
        vstd::arithmetic::div_mod::lemma_breakdown(ni, 16, p);
        assert((n / 16) as int == ni / 16);
        assert(((ni / 16) % p) * 16 + ni % 16 == ni % (16 * p)) by (nonlinear_arith)
            requires
                p > 0,
                (ni % (16 * p)) == 16 * ((ni / 16) % p) + ni % 16,
        ;
        assert forall|i: int| 0 <= i < w implies #[trigger] h[i] != '+' by {
            if i < w - 1 {
                assert(h[i] == t[i]);
            }
        }
        assert(vstd::utf8::is_ascii_chars(h)) by {
            assert forall|i: int| 0 <= i < h.len() implies '\0' <= #[trigger] h[i] <= '\u{7f}' by {
                if i < w - 1 {
                    assert(h[i] == t[i]);
                }
            }
        }
    }
}

/// A server's short identifier as the panel shows it, eight hexadecimal
/// digits, reads back as that identifier.
pub proof fn law_short_identifier_round_trip(short: i32)
    ensures
        spec_server_identifier(crate::text::hex_fixed((short as u32) as nat, 8)) == Ok::<
            Option<ServerIdentifier>,
            IdentifierError,
        >(Some(ServerIdentifier::Short(short))),
{
    let v = short as u32;
    let s = crate::text::hex_fixed(v as nat, 8);
    lemma_hex_fixed_shape(v as nat, 8);
    vstd::utf8::is_ascii_chars_encode_utf8(s);
    reveal(vstd::arithmetic::power::pow);
    assert(vstd::arithmetic::power::pow(16, 0) == 1);
    assert(vstd::arithmetic::power::pow(16, 1) == 16);
    assert(vstd::arithmetic::power::pow(16, 2) == 0x100);
    assert(vstd::arithmetic::power::pow(16, 3) == 0x1000);
    assert(vstd::arithmetic::power::pow(16, 4) == 0x1_0000);
    assert(vstd::arithmetic::power::pow(16, 5) == 0x10_0000);
    assert(vstd::arithmetic::power::pow(16, 6) == 0x100_0000);
    assert(vstd::arithmetic::power::pow(16, 7) == 0x1000_0000);
    assert(vstd::arithmetic::power::pow(16, 8) == 0x1_0000_0000);
    assert((v as nat) % 0x1_0000_0000 == v as nat);
    assert(s[0] != '+');
    assert(crate::ids::hex_u32(s) == Some(v));
    assert((v as i32) == short) by (bit_vector)
        requires
            v == short as u32,
    ;
}

/// The columns of `servers`, each with the name it is read back by.
pub open spec fn server_column_list() -> Seq<(Seq<char>, Seq<char>)> {
    seq![
        ("uuid"@, "uuid"@),
        ("uuid_short"@, "uuid_short"@),
        ("external_id"@, "external_id"@),
        ("destination_allocation_uuid"@, "destination_allocation_uuid"@),
        ("node_uuid"@, "node_uuid"@),
        ("destination_node_uuid"@, "destination_node_uuid"@),
        ("backup_configuration_uuid"@, "backup_configuration_uuid"@),
        ("status"@, "status"@),
        ("suspended"@, "suspended"@),
        ("name"@, "name"@),
        ("description"@, "description"@),
        ("memory"@, "memory"@),
        ("memory_overhead"@, "memory_overhead"@),
        ("swap"@, "swap"@),
        ("disk"@, "disk"@),
        ("io_weight"@, "io_weight"@),
        ("cpu"@, "cpu"@),
        ("pinned_cpus"@, "pinned_cpus"@),
        ("startup"@, "startup"@),
        ("image"@, "image"@),
        ("auto_kill"@, "auto_kill"@),
        ("auto_start_behavior"@, "auto_start_behavior"@),
        ("timezone"@, "timezone"@),
        ("hugepages_passthrough_enabled"@, "hugepages_passthrough_enabled"@),
        ("kvm_passthrough_enabled"@, "kvm_passthrough_enabled"@),
        ("allocation_limit"@, "allocation_limit"@),
        ("database_limit"@, "database_limit"@),
        ("backup_limit"@, "backup_limit"@),
        ("schedule_limit"@, "schedule_limit"@),
        ("created"@, "created"@),
    ]
}

impl Server {
    /// The columns a query selects for a server, read back under `prefix`,
    /// followed by those of its egg under `egg_`. (The allocation, owner and
    /// nest columns that the panel's query adds belong to records that this
    /// library does not hold.)
    pub fn columns(prefix: Option<&str>) -> (r: Vec<(String, String)>)
        ensures
            pair_views(r@) == column_pairs("servers"@, server_column_list(), prefix_text(prefix)) + column_pairs(
                "nest_eggs"@,
                nest_egg_column_list(),
                "egg_"@,
            ),
    {
        let columns = vec![
            ("uuid", "uuid"),
            ("uuid_short", "uuid_short"),
            ("external_id", "external_id"),
            ("destination_allocation_uuid", "destination_allocation_uuid"),
            ("node_uuid", "node_uuid"),
            ("destination_node_uuid", "destination_node_uuid"),
            ("backup_configuration_uuid", "backup_configuration_uuid"),
            ("status", "status"),
            ("suspended", "suspended"),
            ("name", "name"),
            ("description", "description"),
            ("memory", "memory"),
            ("memory_overhead", "memory_overhead"),
            ("swap", "swap"),
            ("disk", "disk"),
            ("io_weight", "io_weight"),
            ("cpu", "cpu"),
            ("pinned_cpus", "pinned_cpus"),
            ("startup", "startup"),
            ("image", "image"),
            ("auto_kill", "auto_kill"),
            ("auto_start_behavior", "auto_start_behavior"),
            ("timezone", "timezone"),
            ("hugepages_passthrough_enabled", "hugepages_passthrough_enabled"),
            ("kvm_passthrough_enabled", "kvm_passthrough_enabled"),
            ("allocation_limit", "allocation_limit"),
            ("database_limit", "database_limit"),
            ("backup_limit", "backup_limit"),
            ("schedule_limit", "schedule_limit"),
            ("created", "created"),
        ];
        let own = prefixed_columns("servers", columns.as_slice(), prefix);
        assert(column_list(columns@) =~= server_column_list());
        let egg = NestEgg::columns(Some("egg_"));
        append_columns(own, egg)
    }
}

} // verus!
