use orkestra::models::session::{HostAddr, Id, SessionConfig};
use orkestra::plugins::create_session::error::CreateSessionError;
use orkestra::plugins::filter_sessions::dto::FilterParams;
use orkestra::plugins::join_session::dto::JoinSessionRequest;
use orkestra::plugins::join_session::error::JoinSessionError;
use orkestra::plugins::remove_player_from_session::dto::RemovePlayerFromSessionRequest;
use orkestra::plugins::remove_player_from_session::error::RemovePlayerFromSessionError;
use orkestra::plugins::{create_session, filter_sessions, join_session, remove_player_from_session};
use orkestra::shared::config::AppConfig;
use orkestra::shared::context::{is_send, is_sync, Context};
use orkestra::shared::services::sesser::creation::Reservation;
use orkestra::shared::services::sesser::inmemory_sesser::InMemorySesser;
use orkestra::shared::services::sesser::Sesser;
use orkestra::shared::utils::{
    bad_request_json, created_json, just_bad_request, just_created, just_ok, just_unauthorized,
    ok_json, unauthorized_json, Body, Reply, SessionPresent, Status,
};

fn player(name: &str) -> Id {
    Id(name.to_string())
}

fn settings() -> AppConfig {
    AppConfig {
        host: "10.1.2.3".to_string(),
        port: 8080,
        project_name: "arena".to_string(),
        repo_path: "https://example.org/games/arena".to_string(),
    }
}

fn context() -> Context<InMemorySesser> {
    let config = settings();
    let sesser = InMemorySesser::new(&config, HostAddr { a: 10, b: 1, c: 2, d: 3 });
    Context::new(&config, sesser)
}

fn open_session(
    context: &mut Context<InMemorySesser>,
    id: u128,
    port: u16,
    creator: &str,
    title: &str,
    max_players: u32,
) -> Reply {
    let sesser = context.sesser_mut();
    let lease = match sesser.reserve_port(port, 0) {
        Reservation::Reserved(lease) => lease,
        other => panic!("not reserved: {:?}", other),
    };
    let config =
        SessionConfig { max_players, game_map: "dust".to_string(), title: title.to_string() };
    let provisioning = sesser.provision_with_id(lease, player(creator), config, id);
    create_session::controller::create_session(sesser, provisioning, Ok(()))
}

fn error(status: Status, text: &str) -> Reply {
    Reply { status, body: Body::Error(text.to_string()) }
}

fn connection(text: &str) -> Reply {
    Reply { status: Status::Success, body: Body::Connection(text.to_string()) }
}

#[test]
fn status_codes() {
    assert_eq!(Status::Success.code(), 200);
    assert_eq!(Status::Created.code(), 201);
    assert_eq!(Status::BadRequest.code(), 400);
    assert_eq!(Status::Unauthorized.code(), 401);
}

#[test]
fn reply_builders_set_status_and_body() {
    assert_eq!(just_ok(), Reply { status: Status::Success, body: Body::Empty });
    assert_eq!(just_created(), Reply { status: Status::Created, body: Body::Empty });
    assert_eq!(just_bad_request(), Reply { status: Status::BadRequest, body: Body::Empty });
    assert_eq!(just_unauthorized(), Reply { status: Status::Unauthorized, body: Body::Empty });
    assert_eq!(ok_json(Body::Connection("a:1".to_string())), connection("a:1"));
    assert_eq!(
        created_json(Body::Error("x".to_string())),
        error(Status::Created, "x")
    );
    assert_eq!(
        bad_request_json(Body::Error("x".to_string())),
        error(Status::BadRequest, "x")
    );
    assert_eq!(
        unauthorized_json(Body::Error("x".to_string())),
        error(Status::Unauthorized, "x")
    );
}

#[test]
fn creation_replies_with_the_endpoint() {
    let mut context = context();
    let reply = open_session(&mut context, 1, 7777, "p1", "Arena", 2);
    assert_eq!(reply, connection("10.1.2.3:7777"));
    assert_eq!(reply.status.code(), 200);
    let stored = context.sesser().get_by_id(1).unwrap();
    assert_eq!(stored.title, "Arena");
    assert!(stored.players.contains(&player("p1")));
}

#[test]
fn creation_with_a_worker_that_does_not_start_replies_with_the_reason() {
    let mut context = context();
    let sesser = context.sesser_mut();
    let lease = match sesser.reserve_port(7777, 0) {
        Reservation::Reserved(lease) => lease,
        other => panic!("not reserved: {:?}", other),
    };
    let config = SessionConfig { max_players: 2, game_map: String::new(), title: "A".to_string() };
    let provisioning = sesser.provision_with_id(lease, player("p1"), config, 1);
    let reply = create_session::controller::create_session(
        sesser,
        provisioning,
        Err("No such file or directory (os error 2)".to_string()),
    );
    assert_eq!(
        reply,
        error(Status::BadRequest, "Start server error: No such file or directory (os error 2)")
    );
    assert_eq!(reply.status.code(), 400);
    assert!(context.sesser().get_all_sessions().is_empty());
    assert!(context.sesser().get_by_id(1).is_none());
    assert!(!context.sesser().is_port_pending(7777));
}

#[test]
fn creation_use_case_maps_the_spawn_failure() {
    let mut context = context();
    let sesser = context.sesser_mut();
    let lease = match sesser.reserve_port(7777, 0) {
        Reservation::Reserved(lease) => lease,
        other => panic!("not reserved: {:?}", other),
    };
    let config = SessionConfig { max_players: 2, game_map: String::new(), title: "A".to_string() };
    let provisioning = sesser.provision_with_id(lease, player("p1"), config, 1);
    let result =
        create_session::use_case::create_session(sesser, provisioning, Err("denied".to_string()));
    assert_eq!(result.unwrap_err(), CreateSessionError::StartServer("denied".to_string()));
    assert!(sesser.get_all_sessions().is_empty());
}

#[test]
fn creation_without_a_free_port_has_its_own_reason() {
    let error = create_session::use_case::no_port_available();
    assert_eq!(error, CreateSessionError::StartServer("no free port could be reserved".to_string()));
    assert_eq!(error.message(), "Start server error: no free port could be reserved");
    let reply = create_session::controller::reply_to_creation(&Err(error));
    assert_eq!(reply.status, Status::BadRequest);
}

#[test]
fn join_replies_with_the_endpoint() {
    let mut context = context();
    open_session(&mut context, 1, 7777, "p1", "Arena", 2);
    let request = JoinSessionRequest { server_id: 1, player_id: player("p2") };
    let reply = join_session::controller::join_session(context.sesser_mut(), request);
    assert_eq!(reply, connection("10.1.2.3:7777"));
    let stored = context.sesser().get_by_id(1).unwrap();
    assert_eq!(stored.players.len(), 2);
    assert!(stored.players.contains(&player("p2")));
}

#[test]
fn join_of_an_unused_id_is_a_bad_request() {
    let mut context = context();
    open_session(&mut context, 1, 7777, "p1", "Arena", 2);
    let unused = 0x9f3c2a7e51d84b06a1e2c3d4e5f60718u128;
    let request = JoinSessionRequest { server_id: unused, player_id: player("p2") };
    let reply = join_session::controller::join_session(context.sesser_mut(), request);
    assert_eq!(reply.status.code(), 400);
    assert_eq!(
        reply,
        error(Status::BadRequest, "Session not found: 9f3c2a7e-51d8-4b06-a1e2-c3d4e5f60718")
    );
    assert_eq!(context.sesser().get_by_id(1).unwrap().players.len(), 1);
}

#[test]
fn join_of_a_full_session_is_a_bad_request() {
    let mut context = context();
    open_session(&mut context, 1, 7777, "p1", "Solo", 1);
    let request = JoinSessionRequest { server_id: 1, player_id: player("p2") };
    let reply = join_session::controller::join_session(context.sesser_mut(), request);
    assert_eq!(reply, error(Status::BadRequest, "Session is full"));
    assert_eq!(context.sesser().get_by_id(1).unwrap().players.len(), 1);
}

#[test]
fn join_use_case_tells_the_errors_apart() {
    let mut context = context();
    open_session(&mut context, 1, 7777, "p1", "Solo", 1);
    let sesser = context.sesser_mut();
    assert_eq!(
        join_session::use_case::join_session(sesser, player("p2"), 1).unwrap_err(),
        JoinSessionError::SessionIsFull
    );
    assert_eq!(
        join_session::use_case::join_session(sesser, player("p2"), 2).unwrap_err(),
        JoinSessionError::SessionNotFound(2)
    );
    open_session(&mut context, 3, 7778, "p1", "Duo", 2);
    let addr = join_session::use_case::join_session(context.sesser_mut(), player("p2"), 3).unwrap();
    assert_eq!(addr.port, 7778);
    assert_eq!(addr.host, HostAddr { a: 10, b: 1, c: 2, d: 3 });
}

#[test]
fn join_error_messages() {
    assert_eq!(JoinSessionError::SessionIsFull.message(), "Session is full");
    assert_eq!(
        JoinSessionError::SessionNotFound(0xabcdef).message(),
        "Session not found: 00000000-0000-0000-0000-000000abcdef"
    );
}

#[test]
fn removal_replies_with_an_empty_object() {
    let mut context = context();
    open_session(&mut context, 1, 7777, "p1", "Arena", 2);
    let request = RemovePlayerFromSessionRequest { server_id: 1, player_id: player("p1") };
    let reply = remove_player_from_session::controller::remove_player_from_session(
        context.sesser_mut(),
        request,
    );
    assert_eq!(reply, just_ok());
    assert_eq!(context.sesser().get_by_id(1).unwrap().players.len(), 0);
}

#[test]
fn removal_of_an_absent_player_is_no_error() {
    let mut context = context();
    open_session(&mut context, 1, 7777, "p1", "Arena", 2);
    let request = RemovePlayerFromSessionRequest { server_id: 1, player_id: player("p7") };
    let reply = remove_player_from_session::controller::remove_player_from_session(
        context.sesser_mut(),
        request,
    );
    assert_eq!(reply, just_ok());
    assert!(context.sesser().get_by_id(1).unwrap().players.contains(&player("p1")));
}

#[test]
fn removal_from_an_unknown_session_is_a_bad_request() {
    let mut context = context();
    let request = RemovePlayerFromSessionRequest { server_id: 0x10, player_id: player("p1") };
    let reply = remove_player_from_session::controller::remove_player_from_session(
        context.sesser_mut(),
        request,
    );
    assert_eq!(
        reply,
        error(Status::BadRequest, "Session not found: 00000000-0000-0000-0000-000000000010")
    );
    assert_eq!(
        remove_player_from_session::use_case::remove_player_from_session(
            context.sesser_mut(),
            player("p1"),
            0x10
        )
        .unwrap_err(),
        RemovePlayerFromSessionError::SessionNotFound(0x10)
    );
    assert_eq!(
        RemovePlayerFromSessionError::SessionNotFound(0x10).message(),
        "Session not found: 00000000-0000-0000-0000-000000000010"
    );
}

#[test]
fn listing_without_a_code_shows_every_session() {
    let mut context = context();
    open_session(&mut context, 1, 7001, "a", "One", 2);
    open_session(&mut context, 2, 7002, "b", "Two", 2);
    let reply = filter_sessions::controller::filter_sessions(&context, FilterParams { code: None });
    assert_eq!(reply.status, Status::Success);
    let mut shown = match reply.body {
        Body::Servers(shown) => shown,
        other => panic!("unexpected body: {:?}", other),
    };
    shown.sort_by_key(|s| s.id);
    assert_eq!(
        shown,
        vec![
            SessionPresent { id: 1, title: "One".to_string() },
            SessionPresent { id: 2, title: "Two".to_string() },
        ]
    );
}

#[test]
fn listing_with_a_code_shows_the_match() {
    let mut context = context();
    open_session(&mut context, 1, 7001, "a", "One", 2);
    open_session(&mut context, 2, 7002, "b", "Two", 2);
    let reply = filter_sessions::controller::filter_sessions(
        &context,
        FilterParams { code: Some("000001".to_string()) },
    );
    assert_eq!(
        reply,
        Reply {
            status: Status::Success,
            body: Body::Servers(vec![SessionPresent { id: 2, title: "Two".to_string() }]),
        }
    );
    let reply = filter_sessions::controller::filter_sessions(
        &context,
        FilterParams { code: Some("999999".to_string()) },
    );
    assert_eq!(reply, Reply { status: Status::Success, body: Body::Servers(vec![]) });
}

#[test]
fn listing_of_an_empty_service_is_empty() {
    let context = context();
    let reply = filter_sessions::controller::filter_sessions(&context, FilterParams { code: None });
    assert_eq!(reply, Reply { status: Status::Success, body: Body::Servers(vec![]) });
    assert!(filter_sessions::use_case::filter_sessions(&context, None).is_empty());
    assert!(filter_sessions::use_case::filter_sessions(&context, Some(String::new())).is_empty());
}

#[test]
fn present_keeps_order_id_and_title() {
    let mut context = context();
    open_session(&mut context, 9, 7001, "a", "Nine", 2);
    open_session(&mut context, 4, 7002, "b", "Four", 2);
    let nine = context.sesser().get_by_id(9).unwrap();
    let four = context.sesser().get_by_id(4).unwrap();
    let shown = filter_sessions::controller::present(vec![nine, four]);
    assert_eq!(
        shown,
        vec![
            SessionPresent { id: 9, title: "Nine".to_string() },
            SessionPresent { id: 4, title: "Four".to_string() },
        ]
    );
}

#[test]
fn listed_session_is_made_from_id_and_title() {
    let mut context = context();
    open_session(&mut context, 9, 7001, "a", "Nine", 2);
    let nine = context.sesser().get_by_id(9).unwrap();
    assert_eq!(SessionPresent::from(nine), SessionPresent { id: 9, title: "Nine".to_string() });
}

#[test]
fn present_of_nothing_is_nothing() {
    assert!(filter_sessions::controller::present(vec![]).is_empty());
}

#[test]
fn context_keeps_the_names_of_the_settings() {
    let context = context();
    assert_eq!(context.project_name(), "arena");
    assert_eq!(context.repo_path(), "https://example.org/games/arena");
}

#[test]
fn request_data_can_cross_threads() {
    is_send::<JoinSessionRequest>();
    is_sync::<JoinSessionRequest>();
    is_send::<Context<InMemorySesser>>();
    is_sync::<Context<InMemorySesser>>();
}
