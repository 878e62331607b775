//! The plugin registry: which plugins are loaded, which of them are enabled,
//! and which plugin answers for which tool.
//!
//! The registry decides; it starts no process and writes to no pipe. Each
//! operation takes what the runner has learnt from a plugin and says what the
//! tables become and what the runner has to do next.
use vstd::prelude::*;
use vstd::string::StringExecFns;
use crate::error::{PluginError, PluginErrorView};
use crate::ids::{fresh_bits, request_number};
use crate::json::{json_model, str_equal};
use crate::models::{
    duplicate_tools, texts_view, tools_view, ManifestView, PluginManifest, Tool, ToolView,
};
use crate::protocol::{
    CallToolParams, InitializeParams, InitializeResult, JsonRpcRequest, JsonRpcResponse,
    PluginRequestId, ResponseView,
};
use crate::registry::{
    all_tools, call_outcome, call_request, candidates, collisions_of, dispatch, flipped,
    handshake_outcome, handshake_request, is_loaded, lemma_loaded_valid, lemma_plugin_at,
    lemma_toggled_valid, lemma_unloaded_valid, loaded, manifest_of, manifests_of, number_of,
    position_of,
    purge_routes, route_tools, toggled, unloaded, valid, CollisionView, DirectoryEntryView,
    EntryView, ManagerView,
};

verus! {

/// A loaded plugin: its manifest and the runner's handle to its process.
pub struct PluginEntry {
    pub manifest: PluginManifest,
    pub handle: u64,
}

impl View for PluginEntry {
    type V = EntryView;

    open spec fn view(&self) -> EntryView {
        EntryView { manifest: self.manifest@, handle: self.handle }
    }
}

/// One line of the routing table: the plugin that answers for a tool.
pub struct ToolRoute {
    pub tool: String,
    pub plugin: String,
}

/// A tool name that was taken over at a load, with the plugin that held it
/// until then.
#[derive(Debug, Clone, PartialEq, Eq)]
pub struct ToolCollision {
    pub tool: String,
    pub previous_owner: String,
}

impl View for ToolCollision {
    type V = CollisionView;

    open spec fn view(&self) -> CollisionView {
        CollisionView { tool: self.tool@, previous_owner: self.previous_owner@ }
    }
}

/// The views of a list of collisions, in order.
pub open spec fn collisions_view(cs: Seq<ToolCollision>) -> Seq<CollisionView> {
    cs.map_values(|c: ToolCollision| c@)
}

/// What a load did to the tables.
#[derive(Debug, Clone, PartialEq, Eq)]
pub struct LoadReport {
    /// The name under which the plugin stands in the registry.
    pub name: String,
    /// The handle of the plugin of the same name that was unloaded to make
    /// room, for the runner to end its process.
    pub replaced: Option<u64>,
    /// The tool names that the plugin took over, in the order of its manifest.
    pub collisions: Vec<ToolCollision>,
}

/// A call that is ready to be sent: the plugin that answers for the tool, the
/// handle of its process, and the request to send to it.
#[derive(Debug, Clone, PartialEq)]
pub struct ToolInvocation {
    pub plugin: String,
    pub handle: u64,
    pub request: JsonRpcRequest,
}

/// What the runner has found of one entry of the plugin directory.
#[derive(Debug, Clone, PartialEq, Eq)]
pub struct DirectoryEntry {
    pub path: String,
    /// Whether the entry is a regular file.
    pub is_file: bool,
    /// Whether the entry may be executed.
    pub is_executable: bool,
}

impl View for DirectoryEntry {
    type V = DirectoryEntryView;

    open spec fn view(&self) -> DirectoryEntryView {
        DirectoryEntryView {
            path: self.path@,
            is_file: self.is_file,
            is_executable: self.is_executable,
        }
    }
}

/// The views of a directory listing, in order.
pub open spec fn listing_view(entries: Seq<DirectoryEntry>) -> Seq<DirectoryEntryView> {
    entries.map_values(|e: DirectoryEntry| e@)
}

/// The views of a list of manifests, in order.
pub open spec fn manifests_view(ms: Seq<PluginManifest>) -> Seq<ManifestView> {
    ms.map_values(|m: PluginManifest| m@)
}

/// The view of a reply: of the response, or of the account of a failure.
pub open spec fn reply_view(reply: Result<JsonRpcResponse, String>) -> Result<
    ResponseView,
    Seq<char>,
> {
    match reply {
        Ok(r) => Ok(r@),
        Err(e) => Err(e@),
    }
}

/// The views of a list of entries, in order.
pub open spec fn entries_view(entries: Seq<PluginEntry>) -> Seq<EntryView> {
    entries.map_values(|e: PluginEntry| e@)
}

/// Whether a list of routes has a line for `tool`.
pub open spec fn has_route(routes: Seq<ToolRoute>, tool: Seq<char>) -> bool {
    exists|i: int| 0 <= i < routes.len() && (#[trigger] routes[i]).tool@ == tool
}

/// The line of a list of routes that speaks of `tool`.
pub open spec fn route_index(routes: Seq<ToolRoute>, tool: Seq<char>) -> int {
    choose|i: int| 0 <= i < routes.len() && (#[trigger] routes[i]).tool@ == tool
}

/// No two lines of a list of routes speak of the same tool.
pub open spec fn tools_distinct(routes: Seq<ToolRoute>) -> bool {
    forall|i: int, j: int|
        0 <= i < j < routes.len() ==> (#[trigger] routes[i]).tool@ != (#[trigger] routes[j]).tool@
}

/// The routing table that a list of routes stands for.
pub open spec fn routes_map(routes: Seq<ToolRoute>) -> Map<Seq<char>, Seq<char>> {
    Map::new(
        |t: Seq<char>| has_route(routes, t),
        |t: Seq<char>| routes[route_index(routes, t)].plugin@,
    )
}

/// In a list without repeated tools, each line is the one that the table
/// holds for its tool.
pub proof fn lemma_route_at(routes: Seq<ToolRoute>, i: int)
    requires
        tools_distinct(routes),
        0 <= i < routes.len(),
    ensures
        routes_map(routes).contains_key(routes[i].tool@),
        routes_map(routes)[routes[i].tool@] == routes[i].plugin@,
        route_index(routes, routes[i].tool@) == i,
{
    let j = route_index(routes, routes[i].tool@);
    assert(0 <= j < routes.len() && routes[j].tool@ == routes[i].tool@);
    if j < i {
        assert(routes[j].tool@ != routes[i].tool@);
    }
    if i < j {
        assert(routes[i].tool@ != routes[j].tool@);
    }
}

/// A prefix of a list without repeated tools has no repeated tools.
pub proof fn lemma_take_distinct(routes: Seq<ToolRoute>, n: int)
    requires
        tools_distinct(routes),
        0 <= n <= routes.len(),
    ensures
        tools_distinct(routes.take(n)),
{
    assert forall|a: int, b: int| 0 <= a < b < n implies (#[trigger] routes.take(n)[a]).tool@ != (
    #[trigger] routes.take(n)[b]).tool@ by {
        assert(routes[a].tool@ != routes[b].tool@);
    }
}

/// A new line for a tool that the list does not speak of adds that tool to
/// the table and changes nothing else.
pub proof fn lemma_routes_push(routes: Seq<ToolRoute>, route: ToolRoute)
    requires
        tools_distinct(routes),
        !has_route(routes, route.tool@),
    ensures
        tools_distinct(routes.push(route)),
        routes_map(routes.push(route)) == routes_map(routes).insert(route.tool@, route.plugin@),
{
    let longer = routes.push(route);
    let n = routes.len() as int;
    assert forall|a: int, b: int| 0 <= a < b < longer.len() implies (#[trigger] longer[a]).tool@ != (
    #[trigger] longer[b]).tool@ by {
        if b == n {
            assert(routes[a].tool@ != route.tool@);
        } else {
            assert(routes[a].tool@ != routes[b].tool@);
        }
    }
    let target = routes_map(routes).insert(route.tool@, route.plugin@);
    assert forall|t: Seq<char>| routes_map(longer).contains_key(t) <==> target.contains_key(t) by {
        if has_route(longer, t) {
            let k = route_index(longer, t);
            if k < n {
                assert(routes[k].tool@ == t);
            }
        }
        if has_route(routes, t) {
            let k = route_index(routes, t);
            assert(longer[k].tool@ == t);
        }
        if t == route.tool@ {
            assert(longer[n].tool@ == t);
        }
    }
    assert forall|t: Seq<char>| routes_map(longer).contains_key(t) implies routes_map(longer)[t]
        == target[t] by {
        if t == route.tool@ {
            lemma_route_at(longer, n);
        } else {
            let k = route_index(routes, t);
            lemma_route_at(routes, k);
            assert(longer[k] == routes[k]);
            lemma_route_at(longer, k);
        }
    }
    assert(routes_map(longer) =~= target);
}

/// A line that is rewritten to lead to another plugin changes the table at
/// its tool and nowhere else.
pub proof fn lemma_routes_update(routes: Seq<ToolRoute>, i: int, route: ToolRoute)
    requires
        tools_distinct(routes),
        0 <= i < routes.len(),
        route.tool@ == routes[i].tool@,
    ensures
        tools_distinct(routes.update(i, route)),
        routes_map(routes.update(i, route)) == routes_map(routes).insert(
            route.tool@,
            route.plugin@,
        ),
{
    let changed = routes.update(i, route);
    assert forall|a: int, b: int| 0 <= a < b < changed.len() implies (
    #[trigger] changed[a]).tool@ != (#[trigger] changed[b]).tool@ by {
        assert(routes[a].tool@ != routes[b].tool@);
    }
    let target = routes_map(routes).insert(route.tool@, route.plugin@);
    assert forall|t: Seq<char>| routes_map(changed).contains_key(t) <==> target.contains_key(t) by {
        if has_route(changed, t) {
            let k = route_index(changed, t);
            assert(routes[k].tool@ == t);
        }
        if has_route(routes, t) {
            let k = route_index(routes, t);
            assert(changed[k].tool@ == t);
        }
        if t == route.tool@ {
            assert(changed[i].tool@ == t);
        }
    }
    assert forall|t: Seq<char>| routes_map(changed).contains_key(t) implies routes_map(changed)[t]
        == target[t] by {
        if t == route.tool@ {
            lemma_route_at(changed, i);
        } else {
            let k = route_index(routes, t);
            lemma_route_at(routes, k);
            assert(changed[k] == routes[k]);
            lemma_route_at(changed, k);
        }
    }
    assert(routes_map(changed) =~= target);
}

/// The plugin registry.
pub struct PluginManager {
    plugins: Vec<PluginEntry>,
    routes: Vec<ToolRoute>,
}

impl View for PluginManager {
    type V = ManagerView;

    closed spec fn view(&self) -> ManagerView {
        ManagerView { plugins: entries_view(self.plugins@), routes: routes_map(self.routes@) }
    }
}

impl Default for PluginManager {
    fn default() -> (r: PluginManager)
        ensures
            r.wf(),
            r@.plugins == Seq::<EntryView>::empty(),
            r@.routes == Map::<Seq<char>, Seq<char>>::empty(),
    {
        PluginManager::new()
    }
}

impl PluginManager {
    /// The registry is valid, and its routing table names no tool twice.
    pub closed spec fn wf(&self) -> bool {
        valid(self@) && tools_distinct(self.routes@)
    }

    /// What `wf` promises of the registry as a value.
    pub proof fn lemma_wf_valid(&self)
        requires
            self.wf(),
        ensures
            valid(self@),
    {
    }

    /// A registry without plugins and without routes.
    pub fn new() -> (r: PluginManager)
        ensures
            r.wf(),
            r@.plugins == Seq::<EntryView>::empty(),
            r@.routes == Map::<Seq<char>, Seq<char>>::empty(),
    {
        let r = PluginManager { plugins: Vec::new(), routes: Vec::new() };
        assert(r@.plugins =~= Seq::<EntryView>::empty());
        assert(r@.routes =~= Map::<Seq<char>, Seq<char>>::empty());
        r
    }

    /// Where the plugin `name` stands in the table.
    fn find_plugin(&self, name: &str) -> (r: Option<usize>)
        requires
            self.wf(),
        ensures
            match r {
                Some(i) => i < self.plugins@.len() && is_loaded(self@.plugins, name@)
                    && position_of(self@.plugins, name@) == i,
                None => !is_loaded(self@.plugins, name@),
            },
    {
        let mut i: usize = 0;
        while i < self.plugins.len()
            invariant
                self.wf(),
                i <= self.plugins@.len(),
                forall|k: int| 0 <= k < i ==> (#[trigger] self@.plugins[k]).manifest.name != name@,
            decreases self.plugins@.len() - i,
        {
            if str_equal(self.plugins[i].manifest.name.as_str(), name) {
                proof {
                    assert(self@.plugins[i as int].manifest.name == name@);
                    lemma_plugin_at(self@.plugins, i as int);
                }
                return Some(i);
            }
            i += 1;
        }
        None
    }

    /// Which line of the routing table speaks of `tool`.
    fn find_route(&self, tool: &str) -> (r: Option<usize>)
        requires
            tools_distinct(self.routes@),
        ensures
            match r {
                Some(i) => i < self.routes@.len() && self.routes@[i as int].tool@ == tool@
                    && self@.routes.contains_key(tool@) && self@.routes[tool@]
                    == self.routes@[i as int].plugin@,
                None => !self@.routes.contains_key(tool@),
            },
    {
        let mut i: usize = 0;
        while i < self.routes.len()
            invariant
                tools_distinct(self.routes@),
                i <= self.routes@.len(),
                forall|k: int| 0 <= k < i ==> (#[trigger] self.routes@[k]).tool@ != tool@,
            decreases self.routes@.len() - i,
        {
            if str_equal(self.routes[i].tool.as_str(), tool) {
                proof {
                    lemma_route_at(self.routes@, i as int);
                }
                return Some(i);
            }
            i += 1;
        }
        None
    }

    /// The manifests of the loaded plugins, in the order in which they were
    /// loaded.
    pub fn get_plugins(&self) -> (r: Vec<PluginManifest>)
        ensures
            manifests_view(r@) == manifests_of(self@.plugins),
    {
        let mut out: Vec<PluginManifest> = Vec::new();
        let mut i: usize = 0;
        while i < self.plugins.len()
            invariant
                i <= self.plugins@.len(),
                out@.len() == i,
                forall|k: int| 0 <= k < i ==> (#[trigger] out@[k])@ == self.plugins@[k].manifest@,
            decreases self.plugins@.len() - i,
        {
            out.push(self.plugins[i].manifest.duplicate());
            i += 1;
        }
        assert(manifests_view(out@) =~= manifests_of(self@.plugins));
        out
    }

    /// The tools of all loaded plugins, plugin after plugin in the order in
    /// which they were loaded.
    pub fn get_all_tools(&self) -> (r: Vec<Tool>)
        ensures
            tools_view(r@) == all_tools(self@.plugins),
    {
        let mut out: Vec<Tool> = Vec::new();
        let mut i: usize = 0;
        assert(self@.plugins.take(0) =~= Seq::<EntryView>::empty());
        while i < self.plugins.len()
            invariant
                i <= self.plugins@.len(),
                tools_view(out@) == all_tools(self@.plugins.take(i as int)),
            decreases self.plugins@.len() - i,
        {
            let ghost before = out@;
            let tools = &self.plugins[i].manifest.tools;
            let mut j: usize = 0;
            while j < tools.len()
                invariant
                    j <= tools@.len(),
                    out@.len() == before.len() + j,
                    forall|k: int| 0 <= k < before.len() ==> out@[k] == before[k],
                    forall|k: int| 0 <= k < j ==> (#[trigger] out@[before.len() + k])@ == tools@[k]@,
                decreases tools@.len() - j,
            {
                out.push(tools[j].duplicate());
                j += 1;
            }
            proof {
                let next = self@.plugins.take(i as int + 1);
                assert(next.drop_last() =~= self@.plugins.take(i as int));
                assert(next.last() == self@.plugins[i as int]);
                let joined = tools_view(before) + tools_view(tools@);
                assert forall|k: int| 0 <= k < out@.len() implies tools_view(out@)[k] == joined[k] by {
                    if k >= before.len() {
                        assert(out@[before.len() + (k - before.len())]@ == tools@[k - before.len()]@);
                    }
                }
                assert(tools_view(out@) =~= joined);
            }
            i += 1;
        }
        assert(self@.plugins.take(i as int) =~= self@.plugins);
        out
    }

    /// Flips the enabled flag of the plugin `name`. Fails, and changes
    /// nothing, where no such plugin is loaded.
    pub fn toggle_plugin(&mut self, name: &str) -> (r: Result<(), PluginError>)
        requires
            old(self).wf(),
        ensures
            final(self).wf(),
            final(self)@ == toggled(old(self)@, name@),
            match r {
                Ok(_) => is_loaded(old(self)@.plugins, name@),
                Err(e) => !is_loaded(old(self)@.plugins, name@) && e@
                    == PluginErrorView::PluginNotFound(name@),
            },
    {
        match self.find_plugin(name) {
            Some(i) => {
                let ghost before = self@;
                let mut manifest = self.plugins[i].manifest.duplicate();
                manifest.enabled = !manifest.enabled;
                let handle = self.plugins[i].handle;
                self.plugins.set(i, PluginEntry { manifest, handle });
                proof {
                    assert(self@.plugins =~= before.plugins.update(
                        i as int,
                        flipped(before.plugins[i as int]),
                    ));
                    lemma_toggled_valid(before, name@);
                }
                Ok(())
            },
            None => Err(PluginError::PluginNotFound(name.to_owned())),
        }
    }

    /// Takes every route that leads to `owner` out of the routing table.
    fn purge(&mut self, owner: &str)
        requires
            tools_distinct(old(self).routes@),
        ensures
            tools_distinct(final(self).routes@),
            final(self)@.routes == purge_routes(old(self)@.routes, owner@),
            final(self).plugins == old(self).plugins,
    {
        let ghost before = self.routes@;
        let mut kept: Vec<ToolRoute> = Vec::new();
        let mut i: usize = 0;
        proof {
            assert(before.take(0) =~= Seq::<ToolRoute>::empty());
            assert(routes_map(kept@) =~= purge_routes(routes_map(before.take(0)), owner@));
        }
        while i < self.routes.len()
            invariant
                self.routes@ == before,
                tools_distinct(before),
                tools_distinct(kept@),
                i <= before.len(),
                self.plugins == old(self).plugins,
                routes_map(kept@) == purge_routes(routes_map(before.take(i as int)), owner@),
            decreases before.len() - i,
        {
            let ghost seen = before.take(i as int);
            let ghost kept_before = kept@;
            proof {
                lemma_take_distinct(before, i as int);
                lemma_take_distinct(before, i as int + 1);
                assert(before.take(i as int + 1) =~= seen.push(before[i as int]));
                if has_route(seen, before[i as int].tool@) {
                    let k = route_index(seen, before[i as int].tool@);
                    assert(before[k].tool@ == before[i as int].tool@);
                }
                lemma_routes_push(seen, before[i as int]);
            }
            if !str_equal(self.routes[i].plugin.as_str(), owner) {
                let route = ToolRoute {
                    tool: self.routes[i].tool.clone(),
                    plugin: self.routes[i].plugin.clone(),
                };
                proof {
                    assert(!routes_map(kept_before).contains_key(route.tool@));
                    lemma_routes_push(kept_before, route);
                }
                kept.push(route);
            }
            i += 1;
            assert(routes_map(kept@) =~= purge_routes(routes_map(before.take(i as int)), owner@));
        }
        assert(before.take(i as int) =~= before);
        self.routes = kept;
    }

    /// Unloads the plugin `name`: its entry and its routes leave the tables,
    /// and the handle of its process is given back for the runner to end it.
    /// Fails, and changes nothing, where no such plugin is loaded.
    pub fn unload_plugin(&mut self, name: &str) -> (r: Result<u64, PluginError>)
        requires
            old(self).wf(),
        ensures
            final(self).wf(),
            final(self)@ == unloaded(old(self)@, name@),
            match r {
                Ok(handle) => is_loaded(old(self)@.plugins, name@) && handle == old(
                    self,
                )@.plugins[position_of(old(self)@.plugins, name@)].handle,
                Err(e) => !is_loaded(old(self)@.plugins, name@) && e@
                    == PluginErrorView::PluginNotFound(name@),
            },
    {
        match self.find_plugin(name) {
            Some(i) => {
                let ghost before = self@;
                let entry = self.plugins.remove(i);
                assert(self@.plugins =~= before.plugins.remove(i as int));
                self.purge(name);
                proof {
                    assert(self@.plugins =~= before.plugins.remove(i as int));
                    lemma_unloaded_valid(before, name@);
                }
                Ok(entry.handle)
            },
            None => Err(PluginError::PluginNotFound(name.to_owned())),
        }
    }

    /// Picks the plugins to load from the listing of the plugin directory:
    /// each regular file that may be executed, in the order of the listing. A
    /// directory that is not there has nothing to load.
    pub fn discover_plugins(listing: &Option<Vec<DirectoryEntry>>) -> (paths: Vec<String>)
        ensures
            texts_view(paths@) == match listing {
                Some(entries) => candidates(listing_view(entries@)),
                None => Seq::<Seq<char>>::empty(),
            },
    {
        let mut paths: Vec<String> = Vec::new();
        let entries = match listing {
            Some(entries) => entries,
            None => {
                assert(texts_view(paths@) =~= Seq::<Seq<char>>::empty());
                return paths;
            },
        };
        let ghost all = listing_view(entries@);
        let mut i: usize = 0;
        proof {
            assert(all.take(0) =~= Seq::<DirectoryEntryView>::empty());
            assert(texts_view(paths@) =~= candidates(all.take(0)));
        }
        while i < entries.len()
            invariant
                i <= entries@.len(),
                all == listing_view(entries@),
                *listing == Some(*entries),
                texts_view(paths@) == candidates(all.take(i as int)),
            decreases entries@.len() - i,
        {
            let ghost found = texts_view(paths@);
            proof {
                assert(all.take(i as int + 1).drop_last() =~= all.take(i as int));
                assert(all.take(i as int + 1).last() == entries@[i as int]@);
            }
            if entries[i].is_file && entries[i].is_executable {
                paths.push(entries[i].path.clone());
                assert(texts_view(paths@) =~= found.push(entries@[i as int]@.path));
            }
            i += 1;
        }
        assert(all.take(i as int) =~= all);
        paths
    }

    /// The request that opens the handshake with a plugin: the method
    /// `initialize`, the host's name and version, and the identifier 1.
    pub fn initialize_request() -> (req: JsonRpcRequest)
        ensures
            req@ == handshake_request(),
    {
        let params = InitializeParams {
            host: String::from_str("renoma"),
            version: String::from_str("0.1.0"),
        };
        JsonRpcRequest {
            json_rpc: String::from_str("2.0"),
            method: String::from_str("initialize"),
            params: Some(params.to_json()),
            id: Some(PluginRequestId::Number(1)),
        }
    }

    /// Reads the answer to the handshake, or the failure of the channel that
    /// should have brought it.
    pub fn handshake_result(reply: Result<JsonRpcResponse, String>) -> (r: Result<
        InitializeResult,
        PluginError,
    >)
        ensures
            match handshake_outcome(reply_view(reply)) {
                Ok(init) => r is Ok && r->Ok_0@ == init,
                Err(e) => r is Err && r->Err_0@ == e,
            },
    {
        match reply {
            Err(text) => Err(PluginError::Transport(text)),
            Ok(response) => match response.result {
                Some(value) => match InitializeResult::from_json(&value) {
                    Some(init) => Ok(init),
                    None => Err(PluginError::InitializationMalformed),
                },
                None => match response.error {
                    Some(e) => Err(PluginError::InitializationFailed(e.message)),
                    None => Err(PluginError::InitializationUnknown),
                },
            },
        }
    }

    /// Enters a plugin that has answered the handshake into the tables. A
    /// plugin of the same name that is already loaded is unloaded first. The
    /// new plugin is enabled, stands last, and claims each tool of its
    /// manifest: where a tool name already has a route, the route is
    /// rewritten and the collision reported.
    pub fn register(&mut self, init: InitializeResult, handle: u64) -> (report: LoadReport)
        requires
            old(self).wf(),
        ensures
            final(self).wf(),
            final(self)@ == loaded(old(self)@, manifest_of(init@), handle),
            report.name@ == init@.name,
            report.replaced == (if is_loaded(old(self)@.plugins, init@.name) {
                Some(old(self)@.plugins[position_of(old(self)@.plugins, init@.name)].handle)
            } else {
                None
            }),
            collisions_view(report.collisions@) == collisions_of(
                unloaded(old(self)@, init@.name).routes,
                init@.tools,
                init@.name,
            ),
    {
        let replaced = match self.unload_plugin(init.name.as_str()) {
            Ok(h) => Some(h),
            Err(_) => None,
        };
        let ghost base = self@;
        let ghost target = manifest_of(init@);
        let name = init.name.clone();
        let tools = duplicate_tools(&init.tools);
        let manifest = PluginManifest {
            name: init.name,
            description: init.description,
            version: init.version,
            enabled: true,
            tools: init.tools,
        };
        self.plugins.push(PluginEntry { manifest, handle });
        let ghost entries = base.plugins.push(EntryView { manifest: target, handle });
        assert(self@.plugins =~= entries);
        let mut collisions: Vec<ToolCollision> = Vec::new();
        let mut k: usize = 0;
        proof {
            assert(target.tools.take(0) =~= Seq::<ToolView>::empty());
            assert(collisions_view(collisions@) =~= Seq::<CollisionView>::empty());
        }
        while k < tools.len()
            invariant
                k <= tools@.len(),
                tools_view(tools@) == target.tools,
                name@ == target.name,
                tools_distinct(self.routes@),
                self@.plugins == entries,
                self@.routes == route_tools(base.routes, target.tools.take(k as int), target.name),
                collisions_view(collisions@) == collisions_of(
                    base.routes,
                    target.tools.take(k as int),
                    target.name,
                ),
            decreases tools@.len() - k,
        {
            let ghost seen = target.tools.take(k as int);
            let ghost next = target.tools.take(k as int + 1);
            let ghost listed = collisions@;
            proof {
                assert(next.drop_last() =~= seen);
                assert(next.last() == target.tools[k as int]);
                assert(tools@[k as int]@ == target.tools[k as int]);
            }
            let tool_name = tools[k].name.clone();
            let route = ToolRoute { tool: tool_name, plugin: name.clone() };
            match self.find_route(tools[k].name.as_str()) {
                Some(i) => {
                    collisions.push(
                        ToolCollision {
                            tool: tools[k].name.clone(),
                            previous_owner: self.routes[i].plugin.clone(),
                        },
                    );
                    proof {
                        lemma_routes_update(self.routes@, i as int, route);
                        assert(collisions_view(collisions@) =~= collisions_view(listed).push(
                            CollisionView {
                                tool: target.tools[k as int].name,
                                previous_owner: self@.routes[target.tools[k as int].name],
                            },
                        ));
                    }
                    self.routes.set(i, route);
                },
                None => {
                    proof {
                        if has_route(self.routes@, route.tool@) {
                            let j = route_index(self.routes@, route.tool@);
                            lemma_route_at(self.routes@, j);
                        }
                        lemma_routes_push(self.routes@, route);
                    }
                    self.routes.push(route);
                },
            }
            k += 1;
        }
        proof {
            assert(target.tools.take(k as int) =~= target.tools);
            old(self).lemma_wf_valid();
            lemma_loaded_valid(old(self)@, target, handle);
        }
        LoadReport { name, replaced, collisions }
    }

    /// Finishes the load of a plugin whose process runs under `handle`: reads
    /// the answer to the handshake and, where the plugin has given a proper
    /// account of itself, registers it. On any failure the tables stay as
    /// they were; the process is then the runner's to end.
    pub fn load_plugin(&mut self, handle: u64, reply: Result<JsonRpcResponse, String>) -> (r:
        Result<LoadReport, PluginError>)
        requires
            old(self).wf(),
        ensures
            final(self).wf(),
            match handshake_outcome(reply_view(reply)) {
                Ok(init) => {
                    &&& r is Ok
                    &&& final(self)@ == loaded(old(self)@, manifest_of(init), handle)
                    &&& r->Ok_0.name@ == init.name
                    &&& r->Ok_0.replaced == (if is_loaded(old(self)@.plugins, init.name) {
                        Some(old(self)@.plugins[position_of(old(self)@.plugins, init.name)].handle)
                    } else {
                        None
                    })
                    &&& collisions_view(r->Ok_0.collisions@) == collisions_of(
                        unloaded(old(self)@, init.name).routes,
                        init.tools,
                        init.name,
                    )
                },
                Err(e) => r is Err && r->Err_0@ == e && final(self)@ == old(self)@,
            },
    {
        match PluginManager::handshake_result(reply) {
            Ok(init) => Ok(self.register(init, handle)),
            Err(e) => Err(e),
        }
    }

    /// Prepares a call of `tool_name` under the identifier `id`. The call is
    /// refused where no route leads from the tool to a loaded plugin, and
    /// where that plugin is disabled; no request is made then.
    pub fn call_tool_with_id(&self, tool_name: &str, args: serde_json::Value, id: i64) -> (r:
        Result<ToolInvocation, PluginError>)
        requires
            self.wf(),
        ensures
            match dispatch(self@, tool_name@) {
                Ok(i) => {
                    &&& r is Ok
                    &&& r->Ok_0.plugin@ == self@.plugins[i].manifest.name
                    &&& r->Ok_0.handle == self@.plugins[i].handle
                    &&& r->Ok_0.request@ == call_request(tool_name@, json_model(args), id as int)
                },
                Err(e) => r is Err && r->Err_0@ == e,
            },
    {
        let owner = match self.find_route(tool_name) {
            Some(i) => self.routes[i].plugin.as_str(),
            None => {
                return Err(PluginError::ToolNotFound(tool_name.to_owned()));
            },
        };
        let at = match self.find_plugin(owner) {
            Some(i) => i,
            None => {
                return Err(PluginError::ToolNotFound(tool_name.to_owned()));
            },
        };
        if !self.plugins[at].manifest.enabled {
            return Err(PluginError::PluginDisabled(owner.to_owned()));
        }
        let params = CallToolParams { name: tool_name.to_owned(), arguments: args };
        let request = JsonRpcRequest {
            json_rpc: String::from_str("2.0"),
            method: String::from_str("call_tool"),
            params: Some(params.to_json()),
            id: Some(PluginRequestId::Number(id)),
        };
        Ok(
            ToolInvocation {
                plugin: self.plugins[at].manifest.name.clone(),
                handle: self.plugins[at].handle,
                request,
            },
        )
    }

    /// Prepares a call of `tool_name` under a fresh identifier, a number drawn
    /// from the clock and from chance. The call is refused where no route leads
    /// from the tool to a loaded plugin, and where that plugin is disabled; no
    /// request is made then.
    pub fn call_tool(&self, tool_name: &str, args: serde_json::Value) -> (r: Result<
        ToolInvocation,
        PluginError,
    >)
        requires
            self.wf(),
        ensures
            match dispatch(self@, tool_name@) {
                Ok(i) => {
                    &&& r is Ok
                    &&& r->Ok_0.plugin@ == self@.plugins[i].manifest.name
                    &&& r->Ok_0.handle == self@.plugins[i].handle
                    &&& r->Ok_0.request@ == call_request(
                        tool_name@,
                        json_model(args),
                        number_of(r->Ok_0.request@.id),
                    )
                },
                Err(e) => r is Err && r->Err_0@ == e,
            },
    {
        let id = request_number(fresh_bits());
        self.call_tool_with_id(tool_name, args, id)
    }

    /// Reads the answer to a call of `tool_name`.
    pub fn tool_result(tool_name: &str, response: JsonRpcResponse) -> (r: Result<
        serde_json::Value,
        PluginError,
    >)
        ensures
            match call_outcome(tool_name@, response@) {
                Ok(m) => r is Ok && json_model(r->Ok_0) == m,
                Err(e) => r is Err && r->Err_0@ == e,
            },
    {
        match response.result {
            Some(value) => Ok(value),
            None => match response.error {
                Some(e) => Err(PluginError::ToolExecution(e.message)),
                None => Err(PluginError::ToolNotFound(tool_name.to_owned())),
            },
        }
    }
}

} // verus!
