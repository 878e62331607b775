//! The plugin registry as a mathematical value: what its tables hold, what
//! each operation makes of them, and what holds of every registry.
use vstd::prelude::*;
use crate::error::PluginErrorView;
use crate::json::JsonModel;
use crate::models::{ManifestView, ToolView};
use crate::protocol::{
    call_tool_params_model, initialize_params_model, initialize_result_of_model,
    CallToolParamsView, InitializeParamsView, InitializeResultView, RequestIdView, RequestView,
    ResponseView,
};

verus! {

/// A loaded plugin as a value: its manifest and the handle of its process.
pub struct EntryView {
    pub manifest: ManifestView,
    pub handle: u64,
}

/// The registry as a value: the loaded plugins in the order in which they
/// were loaded, and the routing table from tool names to plugin names.
pub struct ManagerView {
    pub plugins: Seq<EntryView>,
    pub routes: Map<Seq<char>, Seq<char>>,
}

/// Whether a plugin of this name is among `plugins`.
pub open spec fn is_loaded(plugins: Seq<EntryView>, name: Seq<char>) -> bool {
    exists|i: int| 0 <= i < plugins.len() && (#[trigger] plugins[i]).manifest.name == name
}

/// Where the plugin of this name stands among `plugins`.
pub open spec fn position_of(plugins: Seq<EntryView>, name: Seq<char>) -> int {
    choose|i: int| 0 <= i < plugins.len() && (#[trigger] plugins[i]).manifest.name == name
}

/// Whether a tool of this name is among `tools`.
pub open spec fn declares(tools: Seq<ToolView>, name: Seq<char>) -> bool {
    exists|i: int| 0 <= i < tools.len() && (#[trigger] tools[i]).name == name
}

/// No two plugins have the same name.
pub open spec fn names_distinct(plugins: Seq<EntryView>) -> bool {
    forall|i: int, j: int|
        0 <= i < j < plugins.len() ==> (#[trigger] plugins[i]).manifest.name != (
        #[trigger] plugins[j]).manifest.name
}

/// Every route leads to a loaded plugin that declares the tool.
pub open spec fn routes_sound(v: ManagerView) -> bool {
    forall|t: Seq<char>| #[trigger]
        v.routes.contains_key(t) ==> is_loaded(v.plugins, v.routes[t]) && declares(
            v.plugins[position_of(v.plugins, v.routes[t])].manifest.tools,
            t,
        )
}

/// What holds of every registry: plugin names are distinct, and the routing
/// table speaks of loaded plugins and their own tools only.
pub open spec fn valid(v: ManagerView) -> bool {
    names_distinct(v.plugins) && routes_sound(v)
}

/// The routing table without the routes that lead to `owner`.
pub open spec fn purge_routes(routes: Map<Seq<char>, Seq<char>>, owner: Seq<char>) -> Map<
    Seq<char>,
    Seq<char>,
> {
    Map::new(|t: Seq<char>| routes.contains_key(t) && routes[t] != owner, |t: Seq<char>| routes[t])
}

/// The routing table after `owner` has claimed each of `tools`, one after the
/// other: a later claim of a name takes the place of an earlier one.
pub open spec fn route_tools(
    routes: Map<Seq<char>, Seq<char>>,
    tools: Seq<ToolView>,
    owner: Seq<char>,
) -> Map<Seq<char>, Seq<char>>
    decreases tools.len(),
{
    if tools.len() == 0 {
        routes
    } else {
        route_tools(routes, tools.drop_last(), owner).insert(tools.last().name, owner)
    }
}

/// A collision as a value: the tool name and the plugin that held it.
pub struct CollisionView {
    pub tool: Seq<char>,
    pub previous_owner: Seq<char>,
}

/// The collisions met while `owner` claims each of `tools`, one after the
/// other: a claim collides where the table, as the earlier claims have left
/// it, already has a route for the name.
pub open spec fn collisions_of(
    routes: Map<Seq<char>, Seq<char>>,
    tools: Seq<ToolView>,
    owner: Seq<char>,
) -> Seq<CollisionView>
    decreases tools.len(),
{
    if tools.len() == 0 {
        Seq::<CollisionView>::empty()
    } else {
        let earlier = route_tools(routes, tools.drop_last(), owner);
        let rest = collisions_of(routes, tools.drop_last(), owner);
        let name = tools.last().name;
        if earlier.contains_key(name) {
            rest.push(CollisionView { tool: name, previous_owner: earlier[name] })
        } else {
            rest
        }
    }
}

/// The manifest of a plugin that has just answered the handshake: what it
/// said of itself, enabled.
pub open spec fn manifest_of(init: InitializeResultView) -> ManifestView {
    ManifestView {
        name: init.name,
        description: init.description,
        version: init.version,
        enabled: true,
        tools: init.tools,
    }
}

/// The registry after a plugin with this manifest has been loaded under this
/// handle. A plugin of the same name that was loaded before is unloaded first.
/// The new plugin then stands last and claims each of its tools.
pub open spec fn loaded(v: ManagerView, manifest: ManifestView, handle: u64) -> ManagerView {
    let base = unloaded(v, manifest.name);
    ManagerView {
        plugins: base.plugins.push(EntryView { manifest, handle }),
        routes: route_tools(base.routes, manifest.tools, manifest.name),
    }
}

/// The registry after the plugin `name` is unloaded: its entry is gone, and so
/// is every route that led to it. Nothing changes where no such plugin is
/// loaded.
pub open spec fn unloaded(v: ManagerView, name: Seq<char>) -> ManagerView {
    if is_loaded(v.plugins, name) {
        ManagerView {
            plugins: v.plugins.remove(position_of(v.plugins, name)),
            routes: purge_routes(v.routes, name),
        }
    } else {
        v
    }
}

/// The entry with its enabled flag flipped.
pub open spec fn flipped(e: EntryView) -> EntryView {
    EntryView {
        manifest: ManifestView { enabled: !e.manifest.enabled, ..e.manifest },
        handle: e.handle,
    }
}

/// The registry after the enabled flag of the plugin `name` is flipped.
/// Nothing changes where no such plugin is loaded.
pub open spec fn toggled(v: ManagerView, name: Seq<char>) -> ManagerView {
    if is_loaded(v.plugins, name) {
        let i = position_of(v.plugins, name);
        ManagerView { plugins: v.plugins.update(i, flipped(v.plugins[i])), routes: v.routes }
    } else {
        v
    }
}

/// The tools of all plugins, plugin after plugin.
pub open spec fn all_tools(plugins: Seq<EntryView>) -> Seq<ToolView>
    decreases plugins.len(),
{
    if plugins.len() == 0 {
        Seq::<ToolView>::empty()
    } else {
        all_tools(plugins.drop_last()) + plugins.last().manifest.tools
    }
}

/// The manifests of all plugins, in order.
pub open spec fn manifests_of(plugins: Seq<EntryView>) -> Seq<ManifestView> {
    plugins.map_values(|e: EntryView| e.manifest)
}

/// The request that opens the handshake.
pub open spec fn handshake_request() -> RequestView {
    RequestView {
        json_rpc: "2.0"@,
        method: "initialize"@,
        params: Some(
            initialize_params_model(InitializeParamsView { host: "renoma"@, version: "0.1.0"@ }),
        ),
        id: Some(RequestIdView::Number(1)),
    }
}

/// What the answer to the handshake amounts to: the plugin's account of
/// itself, or the reason why the load fails. A transport failure comes first;
/// then a result, which must have the right shape; then an error; an answer
/// with neither is a failure of its own.
pub open spec fn handshake_outcome(reply: Result<ResponseView, Seq<char>>) -> Result<
    InitializeResultView,
    PluginErrorView,
> {
    match reply {
        Err(text) => Err(PluginErrorView::Transport(text)),
        Ok(response) => match response.result {
            Some(m) => match initialize_result_of_model(m) {
                Some(init) => Ok(init),
                None => Err(PluginErrorView::InitializationMalformed),
            },
            None => match response.error {
                Some(e) => Err(PluginErrorView::InitializationFailed(e.message)),
                None => Err(PluginErrorView::InitializationUnknown),
            },
        },
    }
}

/// The request that calls `tool` with `arguments` under the identifier `id`.
pub open spec fn call_request(tool: Seq<char>, arguments: JsonModel, id: int) -> RequestView {
    RequestView {
        json_rpc: "2.0"@,
        method: "call_tool"@,
        params: Some(call_tool_params_model(CallToolParamsView { name: tool, arguments })),
        id: Some(RequestIdView::Number(id)),
    }
}

/// The number that an identifier is, where it is a number.
pub open spec fn number_of(id: Option<RequestIdView>) -> int {
    match id {
        Some(RequestIdView::Number(n)) => n,
        _ => 0,
    }
}

/// Where a call of `tool` is sent: the position of the plugin that answers
/// for it, or the reason why the call is not made. A tool without a route is
/// not found; a tool whose plugin is disabled is refused.
pub open spec fn dispatch(v: ManagerView, tool: Seq<char>) -> Result<int, PluginErrorView> {
    if !v.routes.contains_key(tool) || !is_loaded(v.plugins, v.routes[tool]) {
        Err(PluginErrorView::ToolNotFound(tool))
    } else {
        let i = position_of(v.plugins, v.routes[tool]);
        if v.plugins[i].manifest.enabled {
            Ok(i)
        } else {
            Err(PluginErrorView::PluginDisabled(v.routes[tool]))
        }
    }
}

/// What the answer to a call amounts to: the result, or the plugin's error;
/// an answer with neither counts as the tool not being found.
pub open spec fn call_outcome(tool: Seq<char>, response: ResponseView) -> Result<
    JsonModel,
    PluginErrorView,
> {
    match response.result {
        Some(m) => Ok(m),
        None => match response.error {
            Some(e) => Err(PluginErrorView::ToolExecution(e.message)),
            None => Err(PluginErrorView::ToolNotFound(tool)),
        },
    }
}

/// An entry of the plugin directory as a value.
pub struct DirectoryEntryView {
    pub path: Seq<char>,
    pub is_file: bool,
    pub is_executable: bool,
}

/// The paths of a listing that are tried as plugins: the regular files that
/// may be executed, in the order of the listing.
pub open spec fn candidates(entries: Seq<DirectoryEntryView>) -> Seq<Seq<char>>
    decreases entries.len(),
{
    if entries.len() == 0 {
        Seq::<Seq<char>>::empty()
    } else {
        let rest = candidates(entries.drop_last());
        if entries.last().is_file && entries.last().is_executable {
            rest.push(entries.last().path)
        } else {
            rest
        }
    }
}

/// In a list without repeated names, each entry is the one found under its
/// name.
pub proof fn lemma_plugin_at(plugins: Seq<EntryView>, i: int)
    requires
        names_distinct(plugins),
        0 <= i < plugins.len(),
    ensures
        is_loaded(plugins, plugins[i].manifest.name),
        position_of(plugins, plugins[i].manifest.name) == i,
{
    let j = position_of(plugins, plugins[i].manifest.name);
    assert(0 <= j < plugins.len() && plugins[j].manifest.name == plugins[i].manifest.name);
    if j < i {
        assert(plugins[j].manifest.name != plugins[i].manifest.name);
    }
    if i < j {
        assert(plugins[i].manifest.name != plugins[j].manifest.name);
    }
}

/// After `owner` has claimed `tools`, the table holds the names of `tools`,
/// all leading to `owner`, and beside them what it held before.
pub proof fn lemma_route_tools(
    routes: Map<Seq<char>, Seq<char>>,
    tools: Seq<ToolView>,
    owner: Seq<char>,
    t: Seq<char>,
)
    ensures
        route_tools(routes, tools, owner).contains_key(t) <==> routes.contains_key(t) || declares(
            tools,
            t,
        ),
        declares(tools, t) ==> route_tools(routes, tools, owner)[t] == owner,
        !declares(tools, t) ==> route_tools(routes, tools, owner)[t] == routes[t],
    decreases tools.len(),
{
    if tools.len() > 0 {
        let front = tools.drop_last();
        lemma_route_tools(routes, front, owner, t);
        if declares(front, t) {
            let i = choose|i: int| 0 <= i < front.len() && (#[trigger] front[i]).name == t;
            assert(tools[i].name == t);
        }
        if tools.last().name == t {
            assert(tools[tools.len() - 1].name == t);
        }
        if declares(tools, t) {
            let i = choose|i: int| 0 <= i < tools.len() && (#[trigger] tools[i]).name == t;
            if i < front.len() {
                assert(front[i].name == t);
            }
        }
    }
}

/// Unloading a plugin keeps a registry valid, and the plugin is then not
/// loaded.
pub proof fn lemma_unloaded_valid(v: ManagerView, name: Seq<char>)
    requires
        valid(v),
    ensures
        valid(unloaded(v, name)),
        !is_loaded(unloaded(v, name).plugins, name),
{
    if is_loaded(v.plugins, name) {
        let i = position_of(v.plugins, name);
        let w = unloaded(v, name);
        assert forall|a: int| 0 <= a < w.plugins.len() implies #[trigger] w.plugins[a]
            == v.plugins[if a < i {
            a
        } else {
            a + 1
        }] by {}
        assert forall|a: int, b: int| 0 <= a < b < w.plugins.len() implies (
        #[trigger] w.plugins[a]).manifest.name != (#[trigger] w.plugins[b]).manifest.name by {
            let a0 = if a < i { a } else { a + 1 };
            let b0 = if b < i { b } else { b + 1 };
            assert(v.plugins[a0].manifest.name != v.plugins[b0].manifest.name);
        }
        if is_loaded(w.plugins, name) {
            let a = position_of(w.plugins, name);
            let a0 = if a < i { a } else { a + 1 };
            assert(v.plugins[a0].manifest.name == name);
            lemma_plugin_at(v.plugins, a0);
            assert(false);
        }
        assert forall|t: Seq<char>| #[trigger] w.routes.contains_key(t) implies is_loaded(
            w.plugins,
            w.routes[t],
        ) && declares(w.plugins[position_of(w.plugins, w.routes[t])].manifest.tools, t) by {
            let owner = v.routes[t];
            assert(v.routes.contains_key(t));
            let j = position_of(v.plugins, owner);
            assert(j != i);
            let j1 = if j < i { j } else { j - 1 };
            assert(w.plugins[j1] == v.plugins[j]);
            lemma_plugin_at(w.plugins, j1);
        }
    }
}

/// Loading a plugin keeps a registry valid.
pub proof fn lemma_loaded_valid(v: ManagerView, manifest: ManifestView, handle: u64)
    requires
        valid(v),
    ensures
        valid(loaded(v, manifest, handle)),
{
    let base = unloaded(v, manifest.name);
    lemma_unloaded_valid(v, manifest.name);
    let w = loaded(v, manifest, handle);
    let last = base.plugins.len() as int;
    assert forall|a: int, b: int| 0 <= a < b < w.plugins.len() implies (
    #[trigger] w.plugins[a]).manifest.name != (#[trigger] w.plugins[b]).manifest.name by {
        if b == last {
            assert(base.plugins[a].manifest.name != manifest.name);
        } else {
            assert(base.plugins[a].manifest.name != base.plugins[b].manifest.name);
        }
    }
    assert forall|t: Seq<char>| #[trigger] w.routes.contains_key(t) implies is_loaded(
        w.plugins,
        w.routes[t],
    ) && declares(w.plugins[position_of(w.plugins, w.routes[t])].manifest.tools, t) by {
        lemma_route_tools(base.routes, manifest.tools, manifest.name, t);
        if declares(manifest.tools, t) {
            assert(w.plugins[last].manifest.name == manifest.name);
            lemma_plugin_at(w.plugins, last);
        } else {
            assert(base.routes.contains_key(t));
            let j = position_of(base.plugins, base.routes[t]);
            assert(w.plugins[j] == base.plugins[j]);
            lemma_plugin_at(w.plugins, j);
        }
    }
}

/// Flipping a flag keeps a registry valid.
pub proof fn lemma_toggled_valid(v: ManagerView, name: Seq<char>)
    requires
        valid(v),
    ensures
        valid(toggled(v, name)),
{
    if is_loaded(v.plugins, name) {
        let i = position_of(v.plugins, name);
        let w = toggled(v, name);
        assert forall|a: int, b: int| 0 <= a < b < w.plugins.len() implies (
        #[trigger] w.plugins[a]).manifest.name != (#[trigger] w.plugins[b]).manifest.name by {
            assert(v.plugins[a].manifest.name != v.plugins[b].manifest.name);
        }
        assert forall|t: Seq<char>| #[trigger] w.routes.contains_key(t) implies is_loaded(
            w.plugins,
            w.routes[t],
        ) && declares(w.plugins[position_of(w.plugins, w.routes[t])].manifest.tools, t) by {
            let owner = v.routes[t];
            let j = position_of(v.plugins, owner);
            assert(w.plugins[j].manifest.name == owner);
            lemma_plugin_at(w.plugins, j);
        }
    }
}

/// Once a plugin is loaded, each tool of its manifest is routed to it.
pub proof fn lemma_loaded_routes(v: ManagerView, manifest: ManifestView, handle: u64, i: int)
    requires
        0 <= i < manifest.tools.len(),
    ensures
        loaded(v, manifest, handle).routes.contains_key(manifest.tools[i].name),
        loaded(v, manifest, handle).routes[manifest.tools[i].name] == manifest.name,
{
    let base = unloaded(v, manifest.name);
    assert(declares(manifest.tools, manifest.tools[i].name));
    lemma_route_tools(base.routes, manifest.tools, manifest.name, manifest.tools[i].name);
}

/// A load leaves the route of a tool as it was, unless the loaded plugin
/// declares the tool or a plugin of the same name held the route before.
pub proof fn lemma_loaded_keeps_other_routes(
    v: ManagerView,
    manifest: ManifestView,
    handle: u64,
    t: Seq<char>,
)
    requires
        v.routes.contains_key(t),
        v.routes[t] != manifest.name,
        !declares(manifest.tools, t),
    ensures
        loaded(v, manifest, handle).routes.contains_key(t),
        loaded(v, manifest, handle).routes[t] == v.routes[t],
{
    let base = unloaded(v, manifest.name);
    lemma_route_tools(base.routes, manifest.tools, manifest.name, t);
}

/// Unloading a plugin leaves the routes to every other plugin as they were.
pub proof fn lemma_unloaded_keeps_other_routes(v: ManagerView, name: Seq<char>, tool: Seq<char>)
    requires
        v.routes.contains_key(tool),
        v.routes[tool] != name,
    ensures
        unloaded(v, name).routes.contains_key(tool),
        unloaded(v, name).routes[tool] == v.routes[tool],
{
}

/// After a load the tools on offer are those that the other plugins offered
/// before, followed by the tools of the loaded plugin.
pub proof fn lemma_loaded_tools(v: ManagerView, manifest: ManifestView, handle: u64)
    ensures
        all_tools(loaded(v, manifest, handle).plugins) == all_tools(
            unloaded(v, manifest.name).plugins,
        ) + manifest.tools,
{
    let base = unloaded(v, manifest.name);
    let w = loaded(v, manifest, handle);
    assert(w.plugins.drop_last() =~= base.plugins);
}

/// Flipping the flag of a plugin twice gives back the registry as it was.
pub proof fn lemma_toggle_twice(v: ManagerView, name: Seq<char>)
    requires
        valid(v),
    ensures
        toggled(toggled(v, name), name) == v,
{
    if is_loaded(v.plugins, name) {
        let i = position_of(v.plugins, name);
        let w = toggled(v, name);
        lemma_toggled_valid(v, name);
        assert(w.plugins[i].manifest.name == name);
        lemma_plugin_at(w.plugins, i);
        assert(toggled(w, name).plugins =~= v.plugins);
    }
}

/// A call of a tool that has no route is not made: the tool is not found.
pub proof fn lemma_unrouted_not_found(v: ManagerView, tool: Seq<char>)
    requires
        !v.routes.contains_key(tool),
    ensures
        dispatch(v, tool) == Err::<int, PluginErrorView>(PluginErrorView::ToolNotFound(tool)),
{
}

/// A call of a tool whose plugin is disabled is not made: it is refused in
/// the plugin's name.
pub proof fn lemma_disabled_refused(v: ManagerView, tool: Seq<char>, i: int)
    requires
        valid(v),
        0 <= i < v.plugins.len(),
        v.routes.contains_key(tool),
        v.routes[tool] == v.plugins[i].manifest.name,
        !v.plugins[i].manifest.enabled,
    ensures
        dispatch(v, tool) == Err::<int, PluginErrorView>(
            PluginErrorView::PluginDisabled(v.plugins[i].manifest.name),
        ),
{
    lemma_plugin_at(v.plugins, i);
}

/// A call of a tool whose plugin is loaded and enabled goes to that plugin.
pub proof fn lemma_enabled_dispatched(v: ManagerView, tool: Seq<char>, i: int)
    requires
        valid(v),
        0 <= i < v.plugins.len(),
        v.routes.contains_key(tool),
        v.routes[tool] == v.plugins[i].manifest.name,
        v.plugins[i].manifest.enabled,
    ensures
        dispatch(v, tool) == Ok::<int, PluginErrorView>(i),
{
    lemma_plugin_at(v.plugins, i);
}

/// Once a plugin is unloaded it is listed no more, and a call of any tool
/// that was routed to it finds no tool.
pub proof fn lemma_unloaded_gone(v: ManagerView, name: Seq<char>, tool: Seq<char>)
    requires
        valid(v),
        is_loaded(v.plugins, name),
        v.routes.contains_key(tool),
        v.routes[tool] == name,
    ensures
        !is_loaded(unloaded(v, name).plugins, name),
        dispatch(unloaded(v, name), tool) == Err::<int, PluginErrorView>(
            PluginErrorView::ToolNotFound(tool),
        ),
{
    lemma_unloaded_valid(v, name);
}

} // verus!
