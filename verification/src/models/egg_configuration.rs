//! Egg configurations: settings that apply to every egg they list, merged
//! in order so that a later configuration overrides an earlier one.

use vstd::prelude::*;
use crate::models::{append_columns, column_list, column_pairs, pair_views, prefix_text, prefixed_columns};
use crate::models::{pick, set_if};
use crate::ordered_map::reversed;
use crate::validation::{texts, flag, chars_within, opt_chars_within, opt2_chars_within, note, text_within, opt_text_within, opt2_text_within};

verus! {

/// Whether users may pick their own ports, and from which range.
#[derive(Clone, Copy)]
pub struct EggConfigAllocationsUserSelfAssign {
    pub enabled: bool,
    pub require_primary_allocation: bool,
    pub start_port: u16,
    pub end_port: u16,
}

impl Default for EggConfigAllocationsUserSelfAssign {
    /// Self-assignment off, a primary allocation required, ports
    /// 49152 to 65535.
    fn default() -> (r: Self)
        ensures
            !r.enabled,
            r.require_primary_allocation,
            r.start_port == 49152,
            r.end_port == 65535,
    {
        EggConfigAllocationsUserSelfAssign {
            enabled: false,
            require_primary_allocation: true,
            start_port: 49152,
            end_port: 65535,
        }
    }
}

/// A port range that users may assign from: unprivileged and non-empty.
pub open spec fn self_assign_valid(a: EggConfigAllocationsUserSelfAssign) -> bool {
    a.start_port < a.end_port && a.start_port >= 1024
}

impl EggConfigAllocationsUserSelfAssign {
    /// Tests that the range starts at 1024 or above and that its start
    /// lies below its end.
    pub fn is_valid(&self) -> (r: bool)
        ensures
            r == self_assign_valid(*self),
    {
        self.start_port < self.end_port && self.start_port >= 1024
    }
}

/// How an additional allocation of a deployment is chosen. The factors of
/// the multiplying and dividing modes are carried as the bits of their
/// 64-bit floating-point value, which nothing here computes with.
#[derive(Clone, Copy)]
pub enum EggConfigAllocationDeploymentAdditionalAllocationMode {
    Random,
    Range { start_port: u16, end_port: u16 },
    AddPrimary { value: u16 },
    SubtractPrimary { value: u16 },
    MultiplyPrimary { value_bits: u64 },
    DividePrimary { value_bits: u64 },
}

/// One additional allocation that a deployment makes.
pub struct EggConfigAllocationDeploymentAdditionalAllocation {
    pub mode: EggConfigAllocationDeploymentAdditionalAllocationMode,
    pub assign_to_variable: Option<String>,
}

/// The primary allocation that a deployment makes.
pub struct EggConfigAllocationDeploymentPrimaryAllocation {
    pub start_port: u16,
    pub end_port: u16,
    pub assign_to_variable: Option<String>,
}

/// The allocations that deploying a server of the egg makes.
pub struct EggConfigAllocationsDeployment {
    pub dedicated: bool,
    pub primary: Option<EggConfigAllocationDeploymentPrimaryAllocation>,
    pub additional: Vec<EggConfigAllocationDeploymentAdditionalAllocation>,
}

/// The allocation settings of a configuration.
pub struct EggConfigAllocations {
    pub user_self_assign: EggConfigAllocationsUserSelfAssign,
    pub deployment: EggConfigAllocationsDeployment,
}

/// The message with which allocation settings whose self-assign range is
/// invalid are refused.
pub open spec fn port_range_message() -> Seq<char> {
    "port ranges must be 1024-65535 and start_port < end_port"@
}

/// Accepts allocation settings whose self-assign range is valid; refuses
/// the others with the port range message.
pub fn validate_config_allocations(config_allocations: &EggConfigAllocations) -> (r: Result<(), String>)
    ensures
        self_assign_valid(config_allocations.user_self_assign) <==> r is Ok,
        r matches Err(m) ==> m@ == port_range_message(),
{
    if !config_allocations.user_self_assign.is_valid() {
        return Err("port ranges must be 1024-65535 and start_port < end_port".to_owned());
    }
    Ok(())
}

/// An entry of the sidebar of a server of the egg.
#[allow(inconsistent_fields)]
pub enum EggConfigRoutesRouteItem {
    Route { path: String },
    Divider { name: Option<String>, name_translations: Vec<(String, String)> },
    Redirect { name: String, name_translations: Vec<(String, String)>, destination: String },
}

/// The order of the sidebar entries.
pub struct EggConfigRoutes {
    pub order: Vec<EggConfigRoutesRouteItem>,
}

/// A stored egg configuration.
pub struct EggConfiguration {
    pub uuid: u128,
    pub name: String,
    pub description: Option<String>,
    pub order: i16,
    pub eggs: Vec<u128>,
    pub config_allocations: Option<EggConfigAllocations>,
    pub config_routes: Option<EggConfigRoutes>,
    /// Creation time, in microseconds since the Unix epoch.
    pub created: i64,
}

/// The settings that hold for one egg: for each kind, the one of the last
/// configuration that sets it.
pub struct MergedEggConfiguration {
    pub config_allocations: Option<EggConfigAllocations>,
    pub config_routes: Option<EggConfigRoutes>,
}

/// The last value that is set in `s`, if any.
pub open spec fn last_set<T>(s: Seq<Option<T>>) -> Option<T>
    decreases s.len(),
{
    if s.len() == 0 {
        None
    } else if s.last() is Some {
        s.last()
    } else {
        last_set(s.drop_last())
    }
}

/// The allocation settings of each row, in order.
pub open spec fn allocations_of(rows: Seq<EggConfiguration>) -> Seq<Option<EggConfigAllocations>> {
    rows.map_values(|r: EggConfiguration| r.config_allocations)
}

/// The route settings of each row, in order.
pub open spec fn routes_of(rows: Seq<EggConfiguration>) -> Seq<Option<EggConfigRoutes>> {
    rows.map_values(|r: EggConfiguration| r.config_routes)
}

/// Merges configurations given in order: each kind of setting comes from
/// the last configuration that sets it.
pub fn merge_configurations(rows: Vec<EggConfiguration>) -> (m: MergedEggConfiguration)
    ensures
        m.config_allocations == last_set(allocations_of(rows@)),
        m.config_routes == last_set(routes_of(rows@)),
{
    let ghost all = rows@;
    let mut base = MergedEggConfiguration { config_allocations: None, config_routes: None };
    let mut rest = reversed(rows);
    while rest.len() > 0
        invariant
            rest@.len() <= all.len(),
            rest@ == all.subrange(all.len() - rest@.len(), all.len() as int).reverse(),
            base.config_allocations == last_set(
                allocations_of(all.subrange(0, all.len() - rest@.len())),
            ),
            base.config_routes == last_set(routes_of(all.subrange(0, all.len() - rest@.len()))),
        decreases rest@.len(),
    {
        let ghost k = all.len() - rest@.len();
        let row = rest.pop().unwrap();
        proof {
            let prefix = all.subrange(0, k);
            let next = all.subrange(0, k + 1);
            assert(row == all[k]);
            assert(next =~= prefix.push(row));
            assert(allocations_of(next).drop_last() =~= allocations_of(prefix));
            assert(routes_of(next).drop_last() =~= routes_of(prefix));
            assert(rest@ =~= all.subrange(k + 1, all.len() as int).reverse());
        }
        let EggConfiguration { config_allocations, config_routes, .. } = row;
        if config_allocations.is_some() {
            base.config_allocations = config_allocations;
        }
        if config_routes.is_some() {
            base.config_routes = config_routes;
        }
    }
    assert(all.subrange(0, all.len() as int) =~= all);
    base
}

/// The settings of one egg as users see them.
pub struct ApiEggConfiguration {
    pub allocation_self_assign_enabled: bool,
    pub allocation_self_assign_require_primary: bool,
    pub route_order: Option<Vec<EggConfigRoutesRouteItem>>,
}

impl MergedEggConfiguration {
    /// The merged settings as users see them: self-assignment is off and
    /// requires nothing unless allocation settings say otherwise.
    pub fn into_api_object(self) -> (r: ApiEggConfiguration)
        ensures
            r.allocation_self_assign_enabled == (match self.config_allocations {
                Some(c) => c.user_self_assign.enabled,
                None => false,
            }),
            r.allocation_self_assign_require_primary == (match self.config_allocations {
                Some(c) => c.user_self_assign.require_primary_allocation,
                None => false,
            }),
            r.route_order == (match self.config_routes {
                Some(c) => Some(c.order),
                None => None,
            }),
    {
        let (enabled, require_primary) = match &self.config_allocations {
            Some(c) => (c.user_self_assign.enabled, c.user_self_assign.require_primary_allocation),
            None => (false, false),
        };
        ApiEggConfiguration {
            allocation_self_assign_enabled: enabled,
            allocation_self_assign_require_primary: require_primary,
            route_order: match self.config_routes {
                Some(c) => Some(c.order),
                None => None,
            },
        }
    }
}

/// A configuration as administrators see it.
pub struct AdminApiEggConfiguration {
    pub uuid: u128,
    pub name: String,
    pub description: Option<String>,
    pub order: i16,
    pub eggs: Vec<u128>,
    pub config_allocations: Option<EggConfigAllocations>,
    pub config_routes: Option<EggConfigRoutes>,
    pub created: i64,
}

/// The options that create a configuration.
pub struct CreateEggConfigurationOptions {
    pub name: String,
    pub description: Option<String>,
    pub order: i16,
    pub eggs: Vec<u128>,
    pub config_allocations: Option<EggConfigAllocations>,
    pub config_routes: Option<EggConfigRoutes>,
}

/// The options that update a configuration; an absent field stays as it
/// is, and `Some(None)` clears an optional one.
pub struct UpdateEggConfigurationOptions {
    pub name: Option<String>,
    pub description: Option<Option<String>>,
    pub order: Option<i16>,
    pub eggs: Option<Vec<u128>>,
    pub config_allocations: Option<Option<EggConfigAllocations>>,
    pub config_routes: Option<Option<EggConfigRoutes>>,
}

/// A configuration lists at most 100 eggs and 100 sidebar entries.
pub open spec fn routes_valid(r: EggConfigRoutes) -> bool {
    r.order@.len() <= 100
}

/// The fields of creation options that break their limits, in field order.
pub open spec fn spec_create_errors(o: CreateEggConfigurationOptions) -> Seq<Seq<char>> {
    flag(!chars_within(o.name@, 1, 255), "name"@)
        + flag(!opt_chars_within(o.description, 1, 1024), "description"@)
        + flag(!(o.eggs@.len() <= 100), "eggs"@)
        + flag(!(match o.config_allocations {
            Some(c) => self_assign_valid(c.user_self_assign),
            None => true,
        }), "config_allocations"@)
        + flag(!(match o.config_routes {
            Some(r) => routes_valid(r),
            None => true,
        }), "config_routes"@)
}

/// The fields of update options that break their limits, in field order.
pub open spec fn spec_update_errors(o: UpdateEggConfigurationOptions) -> Seq<Seq<char>> {
    flag(!opt_chars_within(o.name, 1, 255), "name"@)
        + flag(!opt2_chars_within(o.description, 1, 1024), "description"@)
        + flag(!(match o.eggs {
            Some(e) => e@.len() <= 100,
            None => true,
        }), "eggs"@)
        + flag(!(match o.config_allocations {
            Some(Some(c)) => self_assign_valid(c.user_self_assign),
            _ => true,
        }), "config_allocations"@)
        + flag(!(match o.config_routes {
            Some(Some(r)) => routes_valid(r),
            _ => true,
        }), "config_routes"@)
}

impl CreateEggConfigurationOptions {
    /// The fields that break their limits; empty when the options are valid.
    pub fn validate(&self) -> (errors: Vec<String>)
        ensures
            texts(errors@) == spec_create_errors(*self),
    {
        let mut errors: Vec<String> = Vec::new();
        note(&mut errors, text_within(self.name.as_str(), 1, 255), "name");
        note(&mut errors, opt_text_within(&self.description, 1, 1024), "description");
        note(&mut errors, self.eggs.len() <= 100, "eggs");
        let allocations_ok = match &self.config_allocations {
            Some(c) => validate_config_allocations(c).is_ok(),
            None => true,
        };
        note(&mut errors, allocations_ok, "config_allocations");
        let routes_ok = match &self.config_routes {
            Some(r) => r.order.len() <= 100,
            None => true,
        };
        note(&mut errors, routes_ok, "config_routes");
        assert(texts(errors@) =~= spec_create_errors(*self));
        errors
    }
}

impl UpdateEggConfigurationOptions {
    /// The fields that break their limits; empty when the options are valid.
    pub fn validate(&self) -> (errors: Vec<String>)
        ensures
            texts(errors@) == spec_update_errors(*self),
    {
        let mut errors: Vec<String> = Vec::new();
        note(&mut errors, opt_text_within(&self.name, 1, 255), "name");
        note(&mut errors, opt2_text_within(&self.description, 1, 1024), "description");
        let eggs_ok = match &self.eggs {
            Some(e) => e.len() <= 100,
            None => true,
        };
        note(&mut errors, eggs_ok, "eggs");
        let allocations_ok = match &self.config_allocations {
            Some(Some(c)) => validate_config_allocations(c).is_ok(),
            _ => true,
        };
        note(&mut errors, allocations_ok, "config_allocations");
        let routes_ok = match &self.config_routes {
            Some(Some(r)) => r.order.len() <= 100,
            _ => true,
        };
        note(&mut errors, routes_ok, "config_routes");
        assert(texts(errors@) =~= spec_update_errors(*self));
        errors
    }
}

impl EggConfiguration {
    /// Applies an update: each field that the options set takes its new
    /// value, every other field keeps its own.
    pub fn apply_update(&mut self, options: UpdateEggConfigurationOptions)
        ensures
            final(self).uuid == old(self).uuid,
            final(self).name == pick(options.name, old(self).name),
            final(self).description == pick(options.description, old(self).description),
            final(self).order == pick(options.order, old(self).order),
            final(self).eggs == pick(options.eggs, old(self).eggs),
            final(self).config_allocations == pick(options.config_allocations, old(self).config_allocations),
            final(self).config_routes == pick(options.config_routes, old(self).config_routes),
            final(self).created == old(self).created,
    {
        set_if(&mut self.name, options.name);
        set_if(&mut self.description, options.description);
        set_if(&mut self.order, options.order);
        set_if(&mut self.eggs, options.eggs);
        set_if(&mut self.config_allocations, options.config_allocations);
        set_if(&mut self.config_routes, options.config_routes);
    }

    /// The configuration as administrators see it.
    pub fn into_admin_api_object(self) -> (r: AdminApiEggConfiguration)
        ensures
            r.uuid == self.uuid,
            r.name == self.name,
            r.description == self.description,
            r.order == self.order,
            r.eggs == self.eggs,
            r.config_allocations == self.config_allocations,
            r.config_routes == self.config_routes,
            r.created == self.created,
    {
        AdminApiEggConfiguration {
            uuid: self.uuid,
            name: self.name,
            description: self.description,
            order: self.order,
            eggs: self.eggs,
            config_allocations: self.config_allocations,
            config_routes: self.config_routes,
            created: self.created,
        }
    }
}

/// The columns of `egg_configurations`, each with the name it is read back by.
pub open spec fn egg_configuration_column_list() -> Seq<(Seq<char>, Seq<char>)> {
    seq![
        ("uuid"@, "uuid"@),
        ("name"@, "name"@),
        ("description"@, "description"@),
        ("order_"@, "order_"@),
        ("eggs"@, "eggs"@),
        ("config_allocations"@, "config_allocations"@),
        ("config_routes"@, "config_routes"@),
        ("created"@, "created"@),
    ]
}

impl EggConfiguration {
    /// The columns a query selects for a egg configuration, read back under `prefix`.
    pub fn columns(prefix: Option<&str>) -> (r: Vec<(String, String)>)
        ensures
            pair_views(r@) == column_pairs("egg_configurations"@, egg_configuration_column_list(), prefix_text(prefix)),
    {
        let columns = vec![
            ("uuid", "uuid"),
            ("name", "name"),
            ("description", "description"),
            ("order_", "order_"),
            ("eggs", "eggs"),
            ("config_allocations", "config_allocations"),
            ("config_routes", "config_routes"),
            ("created", "created"),
        ];
        let r = prefixed_columns("egg_configurations", columns.as_slice(), prefix);
        assert(column_list(columns@) =~= egg_configuration_column_list());
        r
    }
}

} // verus!
