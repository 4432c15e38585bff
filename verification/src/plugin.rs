//! Plugins of the front end: where they show, who may see them, and the properties
//! each is drawn with.
use std::collections::HashMap;
use vstd::prelude::*;
use vstd::std_specs::cmp::PartialEqSpec;

use crate::api::uri_utils::{url_pushed_segment, with_path_segment};
use crate::edge::dto::{role_rank, Role};

verus! {

/// Where a plugin's entry shows: in the navigation, or among the status items.
#[derive(Clone, Copy, Debug, PartialEq, Eq, Structural)]
pub enum InsertionPoint {
    Navigation,
    Status,
}

#[derive(Clone, Copy, Debug, PartialEq, Eq, Structural)]
pub enum Category {
    Header,
    Regular,
    Settings,
}

/// A set of insertion points.
#[derive(Clone, Copy, Debug, PartialEq, Eq, Structural)]
pub struct InsertionPoints {
    pub navigation: bool,
    pub status: bool,
}

impl InsertionPoints {
    pub open spec fn has(self, p: InsertionPoint) -> bool {
        match p {
            InsertionPoint::Navigation => self.navigation,
            InsertionPoint::Status => self.status,
        }
    }

    /// The points of the set, in declaration order.
    pub open spec fn points(self) -> Seq<InsertionPoint> {
        let n = if self.navigation {
            seq![InsertionPoint::Navigation]
        } else {
            Seq::empty()
        };
        if self.status {
            n.push(InsertionPoint::Status)
        } else {
            n
        }
    }

    /// The set of one point.
    pub fn only(p: InsertionPoint) -> (r: Self)
        ensures
            r.navigation == (p == InsertionPoint::Navigation),
            r.status == (p == InsertionPoint::Status),
            forall|q: InsertionPoint| r.has(q) == (q == p),
    {
        match p {
            InsertionPoint::Navigation => InsertionPoints { navigation: true, status: false },
            InsertionPoint::Status => InsertionPoints { navigation: false, status: true },
        }
    }

    pub fn union(&self, other: &InsertionPoints) -> (r: Self)
        ensures
            r.navigation == (self.navigation || other.navigation),
            r.status == (self.status || other.status),
            forall|q: InsertionPoint| r.has(q) == (self.has(q) || other.has(q)),
    {
        InsertionPoints {
            navigation: self.navigation || other.navigation,
            status: self.status || other.status,
        }
    }

    pub fn contains(&self, p: InsertionPoint) -> (r: bool)
        ensures
            r == self.has(p),
    {
        match p {
            InsertionPoint::Navigation => self.navigation,
            InsertionPoint::Status => self.status,
        }
    }

    /// The points of the set, in declaration order.
    pub fn iter(&self) -> (r: Vec<InsertionPoint>)
        ensures
            r@ == self.points(),
    {
        let mut r = Vec::new();
        if self.navigation {
            r.push(InsertionPoint::Navigation);
        }
        if self.status {
            r.push(InsertionPoint::Status);
        }
        r
    }
}

/// The API endpoint plugins talk to: its URI and the headers of each request.
pub struct APIEndpoint {
    pub uri: String,
    pub headers: HashMap<String, String>,
}

/// The properties a plugin is drawn with: the active route, the active role, and
/// the API endpoint, which is absent in demo mode.
pub struct PluginProps<R> {
    pub active_route: R,
    pub active_role: Role,
    pub api_endpoint: Option<APIEndpoint>,
}

/// The endpoint of a mapped plugin: the same headers, and the URI with the plugin's
/// prefix added as a path segment.
pub open spec fn endpoint_mapped(e: APIEndpoint, prefix: Seq<char>, mapped: APIEndpoint) -> bool {
    &&& url_pushed_segment(e.uri@, prefix) == Ok::<Seq<char>, crate::api::uri_utils::UriError>(mapped.uri@)
    &&& mapped.headers@ == e.headers@
}

/// The prefix can be added to the URI of the endpoint, if there is one.
pub open spec fn prefix_applies(e: Option<APIEndpoint>, prefix: Seq<char>) -> bool {
    e matches Some(x) ==> url_pushed_segment(x.uri@, prefix) is Ok
}

impl<RAPP> PluginProps<RAPP> {
    /// The properties for a plugin with its own routes: the route mapped by `mapper`,
    /// the same role, and the endpoint with the plugin's URI prefix. The prefix must
    /// apply to the endpoint's URI.
    pub fn map<F: FnOnce(&RAPP) -> R, R>(&self, mapper: F, api_uri_prefix: &str) -> (r: PluginProps<R>)
        requires
            call_requires(mapper, (&self.active_route,)),
            prefix_applies(self.api_endpoint, api_uri_prefix@),
        ensures
            call_ensures(mapper, (&self.active_route,), r.active_route),
            r.active_role == self.active_role,
            self.api_endpoint is None ==> r.api_endpoint is None,
            self.api_endpoint matches Some(e) ==> (r.api_endpoint matches Some(m)
                && endpoint_mapped(e, api_uri_prefix@, m)),
    {
        let active_route = mapper(&self.active_route);
        let api_endpoint = match &self.api_endpoint {
            None => None,
            Some(e) => match with_path_segment(e.uri.as_str(), api_uri_prefix) {
                Ok(uri) => Some(APIEndpoint { uri, headers: e.headers.clone() }),
                Err(_) => {
                    proof {
                        assert(false);
                    }
                    None
                },
            },
        };
        PluginProps { active_route, active_role: self.active_role, api_endpoint }
    }

    /// The properties `map` gives, or none where the prefix does not apply to the
    /// endpoint's URI.
    pub fn try_map<F: FnOnce(&RAPP) -> R, R>(&self, mapper: F, api_uri_prefix: &str) -> (r: Option<PluginProps<R>>)
        requires
            call_requires(mapper, (&self.active_route,)),
        ensures
            r is None <==> !prefix_applies(self.api_endpoint, api_uri_prefix@),
            r matches Some(p) ==> {
                &&& call_ensures(mapper, (&self.active_route,), p.active_route)
                &&& p.active_role == self.active_role
                &&& self.api_endpoint is None ==> p.api_endpoint is None
                &&& self.api_endpoint matches Some(e) ==> (p.api_endpoint matches Some(m)
                    && endpoint_mapped(e, api_uri_prefix@, m))
            },
    {
        let applies = match &self.api_endpoint {
            None => true,
            Some(e) => with_path_segment(e.uri.as_str(), api_uri_prefix).is_ok(),
        };
        if applies {
            Some(self.map(mapper, api_uri_prefix))
        } else {
            None
        }
    }
}

/// A plugin's entry shows to a role at least as high as the plugin's minimum.
pub fn role_allows(min_role: Role, active_role: Role) -> (r: bool)
    ensures
        r == (role_rank(min_role) <= role_rank(active_role)),
{
    active_role.at_least(&min_role)
}

/// How a navigation entry draws: hidden from a lower role; else as an item of the
/// navigation, marked active on its own route, or as a status icon.
#[derive(Clone, Copy, Debug, PartialEq, Eq, Structural)]
pub enum NavigationRender {
    Hidden,
    NavigationItem { active: bool },
    StatusItem,
}

/// A plugin without routes of its own is drawn with whether its route is active.
pub open spec fn route_active<R: PartialEq>(active_route: R, route: R) -> bool {
    active_route.eq_spec(&route)
}

/// A plugin's content shows to a role at least its minimum, on its own route.
pub open spec fn content_shows<R: PartialEq>(min_role: Role, route: R, active_route: R, active_role: Role) -> bool {
    role_rank(min_role) <= role_rank(active_role) && route_active(active_route, route)
}

/// A plugin without routes of its own, put under a route of the application, shows
/// its content under the application's properties exactly when the plugin shows it
/// under the properties `bool_props` gives it.
pub proof fn law_mapped_plugin_shows_alike<RAPP: PartialEq>(
    min_role: Role,
    route: RAPP,
    active_route: RAPP,
    active_role: Role,
)
    requires
        RAPP::obeys_eq_spec(),
    ensures
        content_shows(min_role, route, active_route, active_role) == content_shows(
            min_role,
            true,
            route_active(active_route, route),
            active_role,
        ),
{
}

/// A plugin: its name, description and icon, the lowest role that sees it, where it
/// shows, its category and its route.
pub struct SimplePlugin<R> {
    pub name: String,
    pub description: Option<String>,
    pub icon: Option<String>,
    pub min_role: Role,
    pub insertion_points: InsertionPoints,
    pub category: Category,
    pub route: R,
}

/// A navigation entry of a plugin: its category, where it shows, whether it draws
/// as a navigation item (else as a status item), and the URI prefix of its API.
/// Its drawing is `SimplePlugin::navigation_render`.
#[derive(Clone, Debug, PartialEq, Eq)]
pub struct NavigationPlugin {
    pub category: Category,
    pub insertion_point: InsertionPoint,
    pub as_nav_item: bool,
    pub api_uri_prefix: String,
}

impl NavigationPlugin {
    /// The entry under the application's routes: the plugin's API prefix is then
    /// part of the endpoint its properties carry (`PluginProps::map`), so the entry
    /// keeps none.
    pub fn map(&self) -> (r: NavigationPlugin)
        ensures
            r.category == self.category,
            r.insertion_point == self.insertion_point,
            r.as_nav_item == self.as_nav_item,
            r.api_uri_prefix@ == Seq::<char>::empty(),
    {
        NavigationPlugin {
            category: self.category,
            insertion_point: self.insertion_point,
            as_nav_item: self.as_nav_item,
            api_uri_prefix: String::new(),
        }
    }
}

/// The content of a plugin, with the URI prefix of its API; its drawing is
/// `SimplePlugin::content_visible`.
#[derive(Clone, Debug, PartialEq, Eq)]
pub struct ContentPlugin {
    pub api_uri_prefix: String,
}

impl ContentPlugin {
    /// The content under the application's routes, which keeps no API prefix, as
    /// `NavigationPlugin::map` says.
    pub fn map(&self) -> (r: ContentPlugin)
        ensures
            r.api_uri_prefix@ == Seq::<char>::empty(),
    {
        ContentPlugin { api_uri_prefix: String::new() }
    }
}

impl<R> SimplePlugin<R> {
    /// The content of the plugin, with no API prefix.
    pub fn content_plugin(&self) -> (r: ContentPlugin)
        ensures
            r.api_uri_prefix@ == Seq::<char>::empty(),
    {
        ContentPlugin { api_uri_prefix: String::new() }
    }
}

impl<R: PartialEq> SimplePlugin<R> {
    /// How the plugin's navigation entry draws under `props`.
    pub fn navigation_render(&self, as_nav_item: bool, props: &PluginProps<R>) -> (r: NavigationRender)
        ensures
            !(role_rank(self.min_role) <= role_rank(props.active_role)) ==> r is Hidden,
            role_rank(self.min_role) <= role_rank(props.active_role) && !as_nav_item ==> r is StatusItem,
            role_rank(self.min_role) <= role_rank(props.active_role) && as_nav_item ==> (r matches NavigationRender::NavigationItem { active }
                && (R::obeys_eq_spec() ==> active == route_active(props.active_route, self.route))),
    {
        if role_allows(self.min_role, props.active_role) {
            if as_nav_item {
                NavigationRender::NavigationItem { active: props.active_route == self.route }
            } else {
                NavigationRender::StatusItem
            }
        } else {
            NavigationRender::Hidden
        }
    }

    /// Whether the plugin's content shows under `props`: to a role at least its
    /// minimum, on its own route.
    pub fn content_visible(&self, props: &PluginProps<R>) -> (r: bool)
        ensures
            !(role_rank(self.min_role) <= role_rank(props.active_role)) ==> !r,
            R::obeys_eq_spec() ==> r == content_shows(
                self.min_role,
                self.route,
                props.active_route,
                props.active_role,
            ),
    {
        role_allows(self.min_role, props.active_role) && props.active_route == self.route
    }

    /// The plugin's navigation entries: one for each of its insertion points, in
    /// declaration order, drawn as navigation items in the navigation.
    pub fn iter(&self) -> (r: Vec<NavigationPlugin>)
        ensures
            r@.len() == self.insertion_points.points().len(),
            forall|i: int| 0 <= i < r@.len() ==> {
                &&& (#[trigger] r@[i]).insertion_point == self.insertion_points.points()[i]
                &&& r@[i].category == self.category
                &&& r@[i].as_nav_item == (r@[i].insertion_point == InsertionPoint::Navigation)
                &&& r@[i].api_uri_prefix@ == Seq::<char>::empty()
            },
    {
        let points = self.insertion_points.iter();
        let mut r: Vec<NavigationPlugin> = Vec::new();
        let mut i: usize = 0;
        while i < points.len()
            invariant
                points@ == self.insertion_points.points(),
                i <= points.len(),
                r@.len() == i,
                forall|j: int| 0 <= j < i ==> {
                    &&& (#[trigger] r@[j]).insertion_point == points@[j]
                    &&& r@[j].category == self.category
                    &&& r@[j].as_nav_item == (r@[j].insertion_point == InsertionPoint::Navigation)
                    &&& r@[j].api_uri_prefix@ == Seq::<char>::empty()
                },
            decreases points.len() - i,
        {
            let p = points[i];
            r.push(
                NavigationPlugin {
                    category: self.category,
                    insertion_point: p,
                    as_nav_item: p == InsertionPoint::Navigation,
                    api_uri_prefix: String::new(),
                },
            );
            i = i + 1;
        }
        r
    }
}

impl SimplePlugin<bool> {
    /// The plugin under a route of the application: the same plugin with `route`.
    pub fn map<RAPP>(&self, route: RAPP) -> (r: SimplePlugin<RAPP>)
        ensures
            r.name@ == self.name@,
            opt_text(r.description) == opt_text(self.description),
            opt_text(r.icon) == opt_text(self.icon),
            r.min_role == self.min_role,
            r.insertion_points == self.insertion_points,
            r.category == self.category,
            r.route == route,
    {
        SimplePlugin {
            name: self.name.clone(),
            description: clone_text(&self.description),
            icon: clone_text(&self.icon),
            min_role: self.min_role,
            insertion_points: self.insertion_points,
            category: self.category,
            route,
        }
    }
}

/// The properties a plugin without routes of its own is drawn with, under the
/// application's properties: whether its route is the active one, the role and the
/// endpoint.
pub fn bool_props<RAPP: PartialEq>(props: PluginProps<RAPP>, route: &RAPP) -> (r: PluginProps<bool>)
    ensures
        RAPP::obeys_eq_spec() ==> r.active_route == route_active(props.active_route, *route),
        r.active_role == props.active_role,
        r.api_endpoint == props.api_endpoint,
{
    PluginProps {
        active_route: props.active_route == *route,
        active_role: props.active_role,
        api_endpoint: props.api_endpoint,
    }
}

pub open spec fn opt_text(s: Option<String>) -> Option<Seq<char>> {
    match s {
        Some(x) => Some(x@),
        None => None,
    }
}

fn clone_text(s: &Option<String>) -> (r: Option<String>)
    ensures
        opt_text(r) == opt_text(*s),
{
    match s {
        Some(x) => Some(x.clone()),
        None => None,
    }
}

/// The icon of a status item: the plugin's, else question marks.
pub fn status_icon(icon: &Option<String>) -> (r: String)
    ensures
        r@ == match opt_text(*icon) {
            Some(i) => i,
            None => "???"@,
        },
{
    match icon {
        Some(i) => i.clone(),
        None => {
            proof { reveal_strlit("???"); }
            String::from_str("???")
        },
    }
}

} // verus!
