use guides::guide::{index, routes, AppContext, Method};
use tower::ServiceExt;

async fn serve_index() -> (axum::http::StatusCode, Vec<u8>) {
    let r = index(&AppContext);
    (axum::http::StatusCode::from_u16(r.status).unwrap(), r.body)
}

fn assembled_router() -> axum::Router {
    let frag = routes();
    let mut router = axum::Router::new();
    for entry in &frag.entries {
        assert!(entry.method == Method::Get);
        let full = format!("/{}{}", frag.prefix, entry.path.trim_start_matches('/'));
        router = router.route(&full, axum::routing::get(serve_index));
    }
    router
}

fn dispatch(uri: &str) -> (axum::http::StatusCode, Vec<u8>) {
    let rt = tokio::runtime::Builder::new_current_thread().build().unwrap();
    rt.block_on(async {
        let router = assembled_router();
        let req = axum::http::Request::builder()
            .method("GET")
            .uri(uri)
            .body(axum::body::Body::empty())
            .unwrap();
        let resp = router.oneshot(req).await.unwrap();
        let status = resp.status();
        let bytes = axum::body::to_bytes(resp.into_body(), 1024).await.unwrap();
        (status, bytes.to_vec())
    })
}

#[test]
fn get_guides_root_yields_200_with_empty_body() {
    let (status, body) = dispatch("/guides/");
    assert_eq!(status, axum::http::StatusCode::OK);
    assert!(body.is_empty());
}

#[test]
fn get_guides_unknown_yields_not_found() {
    let (status, _body) = dispatch("/guides/unknown");
    assert_eq!(status, axum::http::StatusCode::NOT_FOUND);
}
