use h2_poll_traces::handler::{serve_req, HttpRequest};

fn request(method: &str, path: &str, headers: Vec<(String, String)>, body: Vec<u8>) -> HttpRequest {
    HttpRequest {
        method: method.to_string(),
        path: path.to_string(),
        headers,
        body,
    }
}

#[test]
fn get_anything_returns_empty_ok() {
    let req = request("GET", "/anything", vec![], b"an arbitrary body".to_vec());
    let resp = serve_req(&req);
    assert_eq!(resp.status, 200);
    assert!(resp.body.is_empty());
}

#[test]
fn response_ignores_method_path_headers_and_body() {
    let requests = vec![
        request("GET", "/", vec![], vec![]),
        request("POST", "/submit", vec![("content-type".to_string(), "text/plain".to_string())], b"payload".to_vec()),
        request("DELETE", "/a/very/long/path/with/many/segments", vec![], vec![0u8; 4096]),
        request("PATCH", "/?query=1&other=2", vec![("x-custom".to_string(), "value".to_string())], vec![255u8]),
    ];
    for req in &requests {
        let resp = serve_req(req);
        assert_eq!(resp.status, 200);
        assert_eq!(resp.body, Vec::<u8>::new());
    }
}

#[test]
fn empty_request_gets_same_answer() {
    let empty = request("", "", vec![], vec![]);
    let resp = serve_req(&empty);
    assert_eq!(resp.status, 200);
    assert!(resp.body.is_empty());
}
