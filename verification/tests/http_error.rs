use iggy_core::cluster::{ClusterNodeConfig, ClusterRoster, TransportPorts};
use iggy_core::http_error::{
    error_field, error_status, partition_write_timeout_response, primary_http_endpoint,
    primary_redirect_response, redirect_location, view_header, AuthError, Consistency, CustomError,
    ErrorResponse, HttpReply, IggyError, IggyErrorKind, Operation, PartitionWriteError, ProduceAck,
    ReadError, WriteError,
};

const READ_PATH: &str = "/streams?consistency=linearizable";

fn node(replica_id: u8, ip: &str, http: Option<u16>) -> ClusterNodeConfig {
    ClusterNodeConfig {
        name: format!("node-{replica_id}"),
        ip: ip.to_owned(),
        replica_id,
        ports: TransportPorts {
            tcp: None,
            quic: None,
            http,
            websocket: None,
            tcp_replica: None,
        },
    }
}

fn roster(nodes: Vec<ClusterNodeConfig>) -> ClusterRoster {
    ClusterRoster {
        enabled: true,
        name: "test-cluster".to_owned(),
        nodes,
        self_ip: "127.0.0.1".to_owned(),
        self_ports: TransportPorts::default(),
    }
}

/// The redirect target the way the HTTP layer builds it: the primary's
/// address (IPv6 when it holds a colon) and HTTP port, then the location.
fn location(roster: &ClusterRoster, primary_index: u8) -> Option<String> {
    let (ip, port) = primary_http_endpoint(roster, primary_index)?;
    Some(redirect_location(&ip, ip.contains(':'), port, READ_PATH))
}

fn error(kind: IggyErrorKind) -> IggyError {
    IggyError {
        kind,
        code: 7,
        name: "some_error".to_owned(),
        message: "Some error".to_owned(),
    }
}

fn unavailable() -> IggyError {
    IggyError {
        kind: IggyErrorKind::CannotEstablishConnection,
        code: 9,
        name: "cannot_establish_connection".to_owned(),
        message: "Cannot establish connection".to_owned(),
    }
}

#[test]
fn primary_redirect_location_targets_primary_http_addr_with_path_passthrough() {
    let roster = roster(vec![
        node(0, "10.0.0.1", Some(8080)),
        node(1, "10.0.0.2", Some(8090)),
    ]);
    assert_eq!(
        location(&roster, 1),
        Some("http://10.0.0.2:8090/streams?consistency=linearizable".to_owned())
    );
}

#[test]
fn primary_redirect_location_is_none_when_no_node_matches_primary_index() {
    let roster = roster(vec![node(0, "10.0.0.1", Some(8080))]);
    assert_eq!(location(&roster, 2), None);
}

#[test]
fn primary_redirect_location_is_none_when_primary_has_no_http_port() {
    let roster = roster(vec![node(0, "10.0.0.1", None)]);
    assert_eq!(location(&roster, 0), None);
}

#[test]
fn primary_redirect_location_is_none_for_empty_roster() {
    let roster = roster(Vec::new());
    assert_eq!(location(&roster, 0), None);
}

#[test]
fn primary_redirect_location_brackets_ipv6_host() {
    let roster = roster(vec![node(0, "::1", Some(8080))]);
    assert_eq!(
        location(&roster, 0),
        Some("http://[::1]:8080/streams?consistency=linearizable".to_owned())
    );
}

#[test]
fn status_grading_of_core_errors() {
    assert_eq!(error_status(IggyErrorKind::StreamIdNotFound), 404);
    assert_eq!(error_status(IggyErrorKind::ConsumerOffsetNotFound), 404);
    assert_eq!(error_status(IggyErrorKind::AccessTokenMissing), 401);
    assert_eq!(error_status(IggyErrorKind::InvalidPersonalAccessToken), 401);
    assert_eq!(error_status(IggyErrorKind::Unauthorized), 403);
    assert_eq!(error_status(IggyErrorKind::TransientNotCommitted), 503);
    assert_eq!(error_status(IggyErrorKind::InvalidStreamName), 400);
    assert_eq!(error_status(IggyErrorKind::Other), 400);
}

#[test]
fn field_blamed_by_core_errors() {
    assert_eq!(error_field(IggyErrorKind::InvalidStreamId), Some("stream_id".to_owned()));
    assert_eq!(error_field(IggyErrorKind::TopicNameAlreadyExists), Some("name".to_owned()));
    assert_eq!(error_field(IggyErrorKind::UserAlreadyExists), Some("username".to_owned()));
    assert_eq!(error_field(IggyErrorKind::Unauthorized), None);
}

#[test]
fn core_error_body_and_reply() {
    let reply = CustomError::Error(error(IggyErrorKind::PartitionNotFound)).reply();
    assert_eq!(
        reply,
        HttpReply {
            status: 404,
            body: Some(ErrorResponse {
                id: 7,
                code: "some_error".to_owned(),
                reason: "Some error".to_owned(),
                field: Some("partition_id".to_owned()),
            }),
            retry_after: None,
            location: None,
        }
    );
    let reply = CustomError::ResourceNotFound.reply();
    assert_eq!(reply.status, 404);
    let body = reply.body.unwrap();
    assert_eq!((body.id, body.code.as_str(), body.reason.as_str()), (404, "not_found", "Resource not found"));
}

#[test]
fn auth_and_write_rejections() {
    let r = AuthError::Unauthenticated(error(IggyErrorKind::Unauthenticated)).reply(&unavailable());
    assert_eq!(r.status, 401);
    assert_eq!(r.retry_after, None);
    let r = AuthError::SessionUnavailable.reply(&unavailable());
    assert_eq!(r.status, 503);
    assert_eq!(r.retry_after, Some(1));
    assert_eq!(r.body.unwrap().code, "cannot_establish_connection");
    let r = WriteError::Evicted(error(IggyErrorKind::Unauthenticated)).reply(&unavailable());
    assert_eq!(r.status, 401);
    let r = WriteError::Unavailable.reply(&unavailable());
    assert_eq!(r.status, 503);
}

#[test]
fn partition_write_rejections() {
    let r = PartitionWriteError::TooManyInFlight.reply(&unavailable());
    assert_eq!((r.status, r.retry_after), (429, Some(1)));
    assert_eq!(r.body.unwrap().code, "too_many_in_flight_writes");
    let r = PartitionWriteError::ServerBusy.reply(&unavailable());
    assert_eq!((r.status, r.retry_after), (503, Some(1)));
    assert_eq!(r.body.unwrap().code, "server_busy");
    let r = PartitionWriteError::NotFound.reply(&unavailable());
    assert_eq!(r.status, 404);
    let r = PartitionWriteError::Timeout(Operation::SendMessages).reply(&unavailable());
    assert_eq!((r.status, r.retry_after), (504, None));
    let body = r.body.unwrap();
    assert_eq!((body.id, body.code.as_str()), (504, "produce_timeout"));
    let r = partition_write_timeout_response(Operation::StoreConsumerOffset);
    assert_eq!(r.body.unwrap().code, "offset_write_timeout");
}

#[test]
fn read_rejections_and_redirects() {
    let r = ReadError::NotPrimary.reply();
    assert_eq!((r.status, r.retry_after), (503, Some(1)));
    assert_eq!(r.body.unwrap().code, "not_primary");
    let r = ReadError::RedirectToPrimary("http://10.0.0.2:8090/streams".to_owned()).reply();
    assert_eq!(r.status, 307);
    assert_eq!(r.location.as_deref(), Some("http://10.0.0.2:8090/streams"));
    assert!(r.body.is_none());
    let r = primary_redirect_response("http://x/\u{7f}");
    assert_eq!(r.status, 503);
    let r = ReadError::Timeout.reply();
    assert_eq!(r.status, 504);
    assert_eq!(r.body.unwrap().code, "partition_read_timeout");
    assert!(matches!(ReadError::for_follower(None), ReadError::NotPrimary));
}

#[test]
fn query_values() {
    assert_eq!(Consistency::parse("linearizable"), Some(Consistency::Linearizable));
    assert_eq!(Consistency::parse("serializable"), Some(Consistency::Serializable));
    assert_eq!(Consistency::parse("Linearizable"), None);
    assert_eq!(Consistency::default(), Consistency::Serializable);
    assert_eq!(ProduceAck::parse("none"), Some(ProduceAck::NoAck));
    assert_eq!(ProduceAck::parse("replicated"), Some(ProduceAck::Replicated));
    assert_eq!(ProduceAck::parse(""), None);
    assert_eq!(ProduceAck::default(), ProduceAck::Replicated);
}

#[test]
fn view_header_only_on_authenticated_success_or_redirect() {
    assert_eq!(view_header(200, "/streams", Some(4)), Some(4));
    assert_eq!(view_header(307, "/streams", Some(4)), Some(4));
    assert_eq!(view_header(401, "/streams", Some(4)), None);
    assert_eq!(view_header(200, "/ping", Some(4)), None);
    assert_eq!(view_header(200, "/streams", None), None);
}
