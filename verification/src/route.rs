//! The routing table: which operation answers which method on which path.

use crate::state::AppState;
use crate::text::same_text;
use vstd::prelude::*;

verus! {

/// The request methods that the service answers.
#[derive(Clone, Copy, Debug, PartialEq, Eq, Structural)]
pub enum Method {
    Get,
    Post,
    Patch,
    Delete,
}

/// The operations of the service.
#[derive(Clone, Copy, Debug, PartialEq, Eq, Structural)]
pub enum Operation {
    CreateGame,
    GameList,
    GetGame,
    DeleteGame,
    UpdateGame,
    CreatePlayer,
    PlayerList,
    GetPlayer,
    DeletePlayer,
    UpdatePlayer,
    CreatePlay,
    PlayList,
    GetPlay,
    DeletePlay,
    UpdatePlay,
    CreatePlayParticipant,
    PlayParticipantList,
    GetPlayParticipants,
    DeletePlayParticipant,
    UpdatePlayParticipant,
}

/// One line of the routing table. In a path, a name in braces stands for a
/// key that the request provides.
#[derive(Clone, Copy, Debug, PartialEq, Eq)]
pub struct Route {
    pub method: Method,
    pub path: &'static str,
    pub operation: Operation,
}

/// What a [`Route`] holds, with the path as a sequence of characters.
pub struct RouteView {
    pub method: Method,
    pub path: Seq<char>,
    pub operation: Operation,
}

impl View for Route {
    type V = RouteView;

    open spec fn view(&self) -> RouteView {
        RouteView { method: self.method, path: self.path@, operation: self.operation }
    }
}

/// The views of the lines of a table.
pub open spec fn route_views(routes: Seq<Route>) -> Seq<RouteView> {
    Seq::new(routes.len(), |i: int| routes[i]@)
}

/// The path of all games.
pub open spec fn games_path() -> Seq<char> {
    "/api/games"@
}

/// The path of one game.
pub open spec fn game_path() -> Seq<char> {
    "/api/games/{id}"@
}

/// The path of all players.
pub open spec fn players_path() -> Seq<char> {
    "/api/players"@
}

/// The path of one player.
pub open spec fn player_path() -> Seq<char> {
    "/api/players/{id}"@
}

/// The path of all plays.
pub open spec fn plays_path() -> Seq<char> {
    "/api/plays"@
}

/// The path of one play.
pub open spec fn play_path() -> Seq<char> {
    "/api/plays/{id}"@
}

/// The path of all participant rows.
pub open spec fn participants_path() -> Seq<char> {
    "/api/playparticipants"@
}

/// The path of the participant rows of one play.
pub open spec fn play_participants_path() -> Seq<char> {
    "/api/plays/{play_id}/participants"@
}

/// The path of one participant row.
pub open spec fn participant_path() -> Seq<char> {
    "/api/plays/{play_id}/participants/{player_id}"@
}

/// A line of the table.
pub open spec fn line(method: Method, path: Seq<char>, operation: Operation) -> RouteView {
    RouteView { method, path, operation }
}

/// The routing table of the service.
pub open spec fn routing_table() -> Seq<RouteView> {
    seq![
        line(Method::Post, games_path(), Operation::CreateGame),
        line(Method::Get, games_path(), Operation::GameList),
        line(Method::Get, game_path(), Operation::GetGame),
        line(Method::Delete, game_path(), Operation::DeleteGame),
        line(Method::Patch, game_path(), Operation::UpdateGame),
        line(Method::Post, players_path(), Operation::CreatePlayer),
        line(Method::Get, players_path(), Operation::PlayerList),
        line(Method::Get, player_path(), Operation::GetPlayer),
        line(Method::Delete, player_path(), Operation::DeletePlayer),
        line(Method::Patch, player_path(), Operation::UpdatePlayer),
        line(Method::Post, plays_path(), Operation::CreatePlay),
        line(Method::Get, plays_path(), Operation::PlayList),
        line(Method::Get, play_path(), Operation::GetPlay),
        line(Method::Delete, play_path(), Operation::DeletePlay),
        line(Method::Patch, play_path(), Operation::UpdatePlay),
        line(Method::Post, participants_path(), Operation::CreatePlayParticipant),
        line(Method::Get, participants_path(), Operation::PlayParticipantList),
        line(Method::Get, play_participants_path(), Operation::GetPlayParticipants),
        line(Method::Delete, participant_path(), Operation::DeletePlayParticipant),
        line(Method::Patch, participant_path(), Operation::UpdatePlayParticipant),
    ]
}

/// The first line of a table for this method and path, if there is one.
pub open spec fn first_match(table: Seq<RouteView>, method: Method, path: Seq<char>) -> Option<
    Operation,
>
    decreases table.len(),
{
    if table.len() == 0 {
        None
    } else if table[0].method == method && table[0].path == path {
        Some(table[0].operation)
    } else {
        first_match(table.drop_first(), method, path)
    }
}

/// The routing table together with the state that the operations work on.
pub struct Router {
    pub routes: Vec<Route>,
    pub state: AppState,
}

impl Router {
    /// The operation that answers this method on this path, if there is one.
    pub fn operation_for(&self, method: Method, path: &str) -> (operation: Option<Operation>)
        ensures
            operation == first_match(route_views(self.routes@), method, path@),
    {
        let mut i: usize = 0;
        assert(route_views(self.routes@).skip(0) =~= route_views(self.routes@));
        while i < self.routes.len()
            invariant
                i <= self.routes.len(),
                first_match(route_views(self.routes@), method, path@) == first_match(
                    route_views(self.routes@).skip(i as int),
                    method,
                    path@,
                ),
            decreases self.routes.len() - i,
        {
            proof {
                let rest = route_views(self.routes@).skip(i as int);
                assert(rest[0] == self.routes@[i as int]@);
                assert(rest.drop_first() =~= route_views(self.routes@).skip(i + 1));
            }
            if self.routes[i].method == method && same_text(self.routes[i].path, path) {
                return Some(self.routes[i].operation);
            }
            i = i + 1;
        }
        None
    }
}

/// The router of the service: the routing table, bound to the state.
pub fn create_router(app_state: AppState) -> (router: Router)
    ensures
        router.state == app_state,
        route_views(router.routes@) == routing_table(),
{
    let mut routes: Vec<Route> = Vec::new();
    routes.push(Route { method: Method::Post, path: "/api/games", operation: Operation::CreateGame });
    routes.push(Route { method: Method::Get, path: "/api/games", operation: Operation::GameList });
    routes.push(
        Route { method: Method::Get, path: "/api/games/{id}", operation: Operation::GetGame },
    );
    routes.push(
        Route { method: Method::Delete, path: "/api/games/{id}", operation: Operation::DeleteGame },
    );
    routes.push(
        Route { method: Method::Patch, path: "/api/games/{id}", operation: Operation::UpdateGame },
    );
    routes.push(
        Route { method: Method::Post, path: "/api/players", operation: Operation::CreatePlayer },
    );
    routes.push(
        Route { method: Method::Get, path: "/api/players", operation: Operation::PlayerList },
    );
    routes.push(
        Route { method: Method::Get, path: "/api/players/{id}", operation: Operation::GetPlayer },
    );
    routes.push(
        Route {
            method: Method::Delete,
            path: "/api/players/{id}",
            operation: Operation::DeletePlayer,
        },
    );
    routes.push(
        Route {
            method: Method::Patch,
            path: "/api/players/{id}",
            operation: Operation::UpdatePlayer,
        },
    );
    routes.push(Route { method: Method::Post, path: "/api/plays", operation: Operation::CreatePlay });
    routes.push(Route { method: Method::Get, path: "/api/plays", operation: Operation::PlayList });
    routes.push(
        Route { method: Method::Get, path: "/api/plays/{id}", operation: Operation::GetPlay },
    );
    routes.push(
        Route { method: Method::Delete, path: "/api/plays/{id}", operation: Operation::DeletePlay },
    );
    routes.push(
        Route { method: Method::Patch, path: "/api/plays/{id}", operation: Operation::UpdatePlay },
    );
    routes.push(
        Route {
            method: Method::Post,
            path: "/api/playparticipants",
            operation: Operation::CreatePlayParticipant,
        },
    );
    routes.push(
        Route {
            method: Method::Get,
            path: "/api/playparticipants",
            operation: Operation::PlayParticipantList,
        },
    );
    routes.push(
        Route {
            method: Method::Get,
            path: "/api/plays/{play_id}/participants",
            operation: Operation::GetPlayParticipants,
        },
    );
    routes.push(
        Route {
            method: Method::Delete,
            path: "/api/plays/{play_id}/participants/{player_id}",
            operation: Operation::DeletePlayParticipant,
        },
    );
    routes.push(
        Route {
            method: Method::Patch,
            path: "/api/plays/{play_id}/participants/{player_id}",
            operation: Operation::UpdatePlayParticipant,
        },
    );
    assert(route_views(routes@) =~= routing_table());
    Router { routes, state: app_state }
}

} // verus!
