use bytes::Bytes;
use weibo::client::Parsed;
use weibo::image::file_name;
use weibo::request::{image_request, page_request};
use weibo::response::strip_jsonp;
use weibo::{Action, Api, Client, Downloader, Event, GenVisitor, Method, Step, Visitor};

const URL: &str = "https://weibo.com/2656274875/JbTu3a9Td?filter=hot&root_comment_id=0";

const PAGE: &str = "<!doctype html><html><body><script>FM.view({\"html\":\"<a \
action-data=\\\"uid=2656274875&mid=4530000000000000&pic_ids=9e5389bbly1ggw2ssj9gzj20u00k0dhs,\
9e5389bbly1ggw2ssjpv5j20u00jxacp,9e5389bbly1ggw2ssjl0gj20u0104goh,\
9e5389bbly1ggw2ssmxopj20u00kb0vg,9e5389bbly1ggw2ssjo2hj20lm0sitbi,\
9e5389bbly1ggw2sskebaj20u017un1o,9e5389bbly1ggw2sslo9hj20u00k0jsh,\
9e5389bbly1ggw2ssmeuwj20u011qad3,9e5389bbly1ggw2ssnohnj20u0190wi7&mode=1\\\">\"})</script></body></html>";

/// What the service is taken to answer to the two handshake requests.
fn token_body() -> &'static str {
    "window.cb && cb({\"msg\":\"succ\",\"data\":{\"new_tid\":true,\"tid\":\"kIESnb2Nrrk=\"},\"retcode\":20000000});"
}

fn ack_body() -> &'static str {
    "window.cb && cb({\"msg\":\"succ\",\"data\":{\"sub\":\"_2AkMo\",\"subp\":\"0033Wr\"},\"retcode\":20000000});"
}

fn envelope(body: &str) -> (String, i64, serde_json::Value) {
    let value: serde_json::Value = serde_json::from_str(&strip_jsonp(body)).unwrap();
    (value["msg"].as_str().unwrap().to_owned(), value["retcode"].as_i64().unwrap(), value["data"].clone())
}

fn token_answer() -> Parsed<GenVisitor> {
    let (msg, retcode, data) = envelope(token_body());
    Ok(Api {
        msg,
        retcode,
        data: GenVisitor {
            new_tid: data["new_tid"].as_bool().unwrap(),
            tid: data["tid"].as_str().unwrap().to_owned(),
        },
    })
}

fn ack_answer() -> Parsed<Visitor> {
    let (msg, retcode, data) = envelope(ack_body());
    Ok(Api {
        msg,
        retcode,
        data: Visitor {
            sub: data["sub"].as_str().unwrap().to_owned(),
            subp: data["subp"].as_str().unwrap().to_owned(),
        },
    })
}

/// A session that has gone through the handshake with the answers above.
fn logged_in() -> Client {
    let mut client = Client::new();
    assert!(matches!(client.authenticate(Event::Begin), Action::Send(ref req) if req.method == Method::Post));
    let action = client.authenticate(Event::Token { token: token_answer(), rand: "0.4269".to_owned() });
    match action {
        Action::Send(req) => {
            assert_eq!(req.method, Method::Get);
            assert_eq!(req.params[1], ("t".to_owned(), "kIESnb2Nrrk=".to_owned()));
        },
        other => panic!("expected the cookie request, got {:?}", other),
    }
    assert!(matches!(client.authenticate(Event::Cookies { ack: ack_answer() }), Action::Done));
    assert!(client.is_authenticated());
    client
}

#[test]
fn test_integration() {
    let client = logged_in();

    assert_eq!(page_request(URL).url, URL);
    let pic_ids = client.get_pic_ids(PAGE);
    println!("{:#?}", pic_ids);
    assert_eq!(pic_ids.len(), 9);
    assert_eq!(
        pic_ids,
        vec![
            "9e5389bbly1ggw2ssj9gzj20u00k0dhs",
            "9e5389bbly1ggw2ssjpv5j20u00jxacp",
            "9e5389bbly1ggw2ssjl0gj20u0104goh",
            "9e5389bbly1ggw2ssmxopj20u00kb0vg",
            "9e5389bbly1ggw2ssjo2hj20lm0sitbi",
            "9e5389bbly1ggw2sskebaj20u017un1o",
            "9e5389bbly1ggw2sslo9hj20u00k0jsh",
            "9e5389bbly1ggw2ssmeuwj20u011qad3",
            "9e5389bbly1ggw2ssnohnj20u0190wi7",
        ]
    );

    assert_eq!(
        image_request("9e5389bbly1ggw2ssj9gzj20u00k0dhs").url,
        "https://wx4.sinaimg.cn/large/9e5389bbly1ggw2ssj9gzj20u00k0dhs.jpg"
    );
    let (bytes, ext) = client.get_pic(Some("image/jpeg"), Bytes::from(vec![0u8; 82_803])).unwrap();
    assert_eq!(ext, "jpg");
    assert_eq!(bytes.len(), 82_803);
}

#[test]
fn a_post_of_nine_images_gives_nine_files() {
    let client = logged_in();
    let pic_ids = client.get_pic_ids(PAGE);
    let content_types = [
        Some("image/jpeg"),
        Some("image/png"),
        Some("image/gif"),
        Some("image/jpeg"),
        None,
        Some("image/webp"),
        Some("image/bmp"),
        Some("image/JPEG"),
        Some("image/jpg"),
    ];
    let extensions = ["jpg", "png", "gif", "jpg", "jpg", "webp", "bmp", "jpg", "jpg"];

    let mut batch = Downloader::new(pic_ids.clone(), 18);
    let mut started = Vec::new();
    while let Step::Fetch(id) = batch.poll() {
        started.push(id);
        assert!(batch.in_flight() <= 18);
    }
    assert_eq!(started, pic_ids);

    // The fetches end in another order than they were started in.
    let order = [4usize, 0, 8, 2, 6, 1, 7, 3, 5];
    let mut files = Vec::new();
    let mut expected_total: u128 = 0;
    for k in order {
        let body = Bytes::from(vec![k as u8; 1_000 * (k + 1) + 3]);
        let (bytes, ext) = client.get_pic(content_types[k], body.clone()).unwrap();
        assert_eq!(bytes, body);
        files.push(file_name(&started[k], &ext));
        expected_total += body.len() as u128;
        assert!(batch.settle(Ok(bytes.len())));
    }
    assert!(matches!(batch.poll(), Step::Finished));
    assert_eq!(batch.finish().unwrap().unwrap(), expected_total);

    files.sort();
    let mut expected_files: Vec<String> =
        (0..9).map(|k| format!("{}.{}", pic_ids[k], extensions[k])).collect();
    expected_files.sort();
    assert_eq!(files, expected_files);
    files.dedup();
    assert_eq!(files.len(), 9);
}
