use base64::Engine;
use base64::prelude::BASE64_STANDARD;
use petcache::cache::CacheKey;
use petcache::cache::CacheStore;
use petcache::cache::TTL_SECONDS;
use petcache::config::bind_defaults;
use petcache::config::parse_port;
use petcache::coordinator::Request;
use petcache::coordinator::RequestError;
use petcache::coordinator::complete_miss;
use petcache::coordinator::prepare;
use petcache::coordinator::store_and_render;
use petcache::coordinator::try_cache;
use petcache::filters::Filter;
use petcache::filters::filter_label;
use petcache::filters::parse_filter;
use petcache::pipeline::transform;
use petcache::render::Mode;
use petcache::render::Output;
use petcache::render::cache_control_secs;
use petcache::render::content_type;
use petcache::render::parse_mode;
use petcache::text::parse_identity;
use petcache::text::strip_gif_suffix;

fn tiny_png(shade: u8) -> Vec<u8> {
    let img = image::RgbaImage::from_pixel(4, 4, image::Rgba([shade, 64, 128, 255]));
    let mut buf = std::io::Cursor::new(Vec::new());
    image::DynamicImage::ImageRgba8(img)
        .write_to(&mut buf, image::ImageFormat::Png)
        .unwrap();
    buf.into_inner()
}

fn req(id: i64, mode: Mode, filter: Filter, bypass: bool) -> Request {
    Request {
        id,
        id_str: id.to_string(),
        mode,
        filter,
        bypass,
    }
}

#[test]
fn identity_parsing() {
    assert_eq!(parse_identity("123"), Some(123));
    assert_eq!(parse_identity("007"), Some(7));
    assert_eq!(parse_identity("-5"), Some(-5));
    assert_eq!(parse_identity("+5"), Some(5));
    assert_eq!(parse_identity("0"), Some(0));
    assert_eq!(parse_identity("9223372036854775807"), Some(i64::MAX));
    assert_eq!(parse_identity("-9223372036854775808"), Some(i64::MIN));
    assert_eq!(parse_identity("9223372036854775808"), None);
    assert_eq!(parse_identity("-9223372036854775809"), None);
    assert_eq!(parse_identity("99999999999999999999999999"), None);
    assert_eq!(parse_identity(""), None);
    assert_eq!(parse_identity("-"), None);
    assert_eq!(parse_identity("+"), None);
    assert_eq!(parse_identity("12a"), None);
    assert_eq!(parse_identity("abc"), None);
    assert_eq!(parse_identity(" 1"), None);
}

#[test]
fn gif_suffix_stripping() {
    assert_eq!(strip_gif_suffix("123.gif"), "123");
    assert_eq!(strip_gif_suffix("123"), "123");
    assert_eq!(strip_gif_suffix(".gif"), "");
    assert_eq!(strip_gif_suffix("12.gifx"), "12.gifx");
}

// Scenario: "123.gif" is stripped to "123", parses, and proceeds as identity 123.
#[test]
fn gif_suffixed_identity_proceeds() {
    let r = prepare("123.gif", None, None, None).unwrap();
    assert_eq!(r.id, 123);
    assert_eq!(r.id_str, "123");
    assert_eq!(r.mode, Mode::Binary);
    assert_eq!(r.filter, Filter::Quality);
    assert!(!r.bypass);
}

#[test]
fn invalid_id_rejected_without_any_work() {
    // no cache store and no pipeline input exist at this point: a malformed
    // identity is rejected before either could be touched
    let r = prepare("abc", Some("json"), Some("true"), Some("no"));
    assert_eq!(r.unwrap_err(), RequestError::InvalidInput);
}

#[test]
fn mode_and_filter_and_bypass_mapping() {
    assert_eq!(parse_mode(Some("json")), Mode::Json);
    assert_eq!(parse_mode(Some("base64")), Mode::Base64Text);
    assert_eq!(parse_mode(Some("gif")), Mode::Binary);
    assert_eq!(parse_mode(Some("anything")), Mode::Binary);
    assert_eq!(parse_mode(None), Mode::Binary);

    for t in ["no", "false", "nein", "not"] {
        assert_eq!(parse_filter(Some(t)), Filter::Fast);
    }
    assert_eq!(parse_filter(Some("yes")), Filter::Quality);
    assert_eq!(parse_filter(None), Filter::Quality);

    let r = prepare("7", None, Some("true"), None).unwrap();
    assert!(r.bypass);
    let r = prepare("7", None, Some("TRUE"), None).unwrap();
    assert!(!r.bypass);
}

#[test]
fn filter_labels_are_stable_and_distinct() {
    assert_eq!(filter_label(Filter::Quality), "Cubic: Catmull-Rom");
    assert_eq!(filter_label(Filter::Fast), "Nearest Neighbor");
    assert_ne!(filter_label(Filter::Quality), filter_label(Filter::Fast));
}

#[test]
fn response_metadata() {
    assert_eq!(cache_control_secs(Mode::Binary), Some(TTL_SECONDS));
    assert_eq!(cache_control_secs(Mode::Base64Text), Some(TTL_SECONDS));
    assert_eq!(cache_control_secs(Mode::Json), None);
    assert_eq!(content_type(Mode::Binary), "image/gif");
    assert_eq!(content_type(Mode::Base64Text), "text/plain");
    assert_eq!(content_type(Mode::Json), "application/json");
}

// Freshness: a lookup with the clock advanced by less than the TTL returns
// the entry as usable; advanced by the TTL or more it is treated as a miss.
#[test]
fn freshness_window() {
    let mut store = CacheStore::new();
    let key = CacheKey {
        id: 1,
        filter: Filter::Quality,
    };
    let t0: u64 = 1_000;
    store.insert(key, t0, String::from("payload"));
    assert_eq!(store.lookup_fresh(key, t0), Some(String::from("payload")));
    assert_eq!(
        store.lookup_fresh(key, t0 + TTL_SECONDS - 1),
        Some(String::from("payload"))
    );
    assert_eq!(store.lookup_fresh(key, t0 + TTL_SECONDS), None);
    assert_eq!(store.lookup_fresh(key, t0 + TTL_SECONDS + 1), None);
    // the stale entry is still present, only treated as absent
    assert!(store.lookup(key).is_some());
}

// Key discrimination: the same identity under the two filters never shares an
// entry.
#[test]
fn key_discrimination() {
    let mut store = CacheStore::new();
    let kf = CacheKey {
        id: 42,
        filter: Filter::Fast,
    };
    let kq = CacheKey {
        id: 42,
        filter: Filter::Quality,
    };
    store.insert(kf, 10, String::from("fast-payload"));
    store.insert(kq, 20, String::from("quality-payload"));
    assert_eq!(store.lookup_fresh(kf, 20), Some(String::from("fast-payload")));
    assert_eq!(
        store.lookup_fresh(kq, 20),
        Some(String::from("quality-payload"))
    );
    // freshness is independent: expire the fast entry, the quality one stays
    assert_eq!(store.lookup_fresh(kf, 10 + TTL_SECONDS), None);
    assert!(store.lookup_fresh(kq, 10 + TTL_SECONDS).is_some());
}

// Idempotent fast path: with a fresh entry for (7, quality), two consecutive
// non-bypass requests produce byte-identical responses with no pipeline work
// on either (try_cache performs none by construction).
#[test]
fn idempotent_fast_path() {
    let mut store = CacheStore::new();
    let r = req(7, Mode::Binary, Filter::Quality, false);
    let gif = vec![71u8, 73, 70, 56, 57, 97, 1, 2, 3];
    store_and_render(&mut store, &r, 500, gif.clone());

    let first = try_cache(&store, &r, 600).unwrap();
    let second = try_cache(&store, &r, 700).unwrap();
    match (&first, &second) {
        (Output::Binary { body: b1 }, Output::Binary { body: b2 }) => {
            assert_eq!(b1, b2);
            assert_eq!(b1, &gif);
        }
        _ => panic!("expected binary outputs"),
    }

    // the same holds in the text and json modes
    let rt = req(7, Mode::Base64Text, Filter::Quality, false);
    match (
        try_cache(&store, &rt, 600).unwrap(),
        try_cache(&store, &rt, 700).unwrap(),
    ) {
        (Output::Base64Text { body: t1 }, Output::Base64Text { body: t2 }) => {
            assert_eq!(t1, t2)
        }
        _ => panic!("expected text outputs"),
    }
    let rj = req(7, Mode::Json, Filter::Quality, false);
    match (
        try_cache(&store, &rj, 600).unwrap(),
        try_cache(&store, &rj, 700).unwrap(),
    ) {
        (
            Output::Json {
                id: i1,
                image_data: d1,
            },
            Output::Json {
                id: i2,
                image_data: d2,
            },
        ) => {
            assert_eq!(i1, i2);
            assert_eq!(d1, d2);
        }
        _ => panic!("expected json outputs"),
    }
}

// Bypass: upd=true on a fresh entry skips the cache read but the completed
// request still overwrites the stored entry.
#[test]
fn bypass_skips_read_and_overwrites() {
    let mut store = CacheStore::new();
    let fresh = req(9, Mode::Json, Filter::Quality, false);
    store_and_render(&mut store, &fresh, 100, vec![1, 2, 3]);
    let old_payload = store.lookup_fresh(fresh.key(), 100).unwrap();

    let bypass = req(9, Mode::Json, Filter::Quality, true);
    assert!(try_cache(&store, &bypass, 100).is_none());

    // exactly one pipeline run completes the bypassed request and replaces
    // the entry wholesale
    let out = complete_miss(&mut store, &bypass, 150, &tiny_png(10)).unwrap();
    let new_payload = store.lookup_fresh(bypass.key(), 150).unwrap();
    assert_ne!(new_payload, old_payload);
    match out {
        Output::Json { id, image_data } => {
            assert_eq!(id, "9");
            assert_eq!(image_data, new_payload);
        }
        _ => panic!("expected a json output"),
    }
}

// Rendering equivalence: the json, base64 and default binary modes all derive
// from the same stored representation; decoding the base64 mode's body yields
// the default mode's raw body.
#[test]
fn rendering_equivalence() {
    let gif = vec![71u8, 73, 70, 255, 0, 128, 7];
    let expected_payload = BASE64_STANDARD.encode(&gif);

    let mut binary_store = CacheStore::new();
    let binary = store_and_render(
        &mut binary_store,
        &req(5, Mode::Binary, Filter::Fast, false),
        1,
        gif.clone(),
    );
    let mut text_store = CacheStore::new();
    let text = store_and_render(
        &mut text_store,
        &req(5, Mode::Base64Text, Filter::Fast, false),
        1,
        gif.clone(),
    );
    let mut json_store = CacheStore::new();
    let json = store_and_render(
        &mut json_store,
        &req(5, Mode::Json, Filter::Fast, false),
        1,
        gif.clone(),
    );

    let binary_body = match binary {
        Output::Binary { body } => body,
        _ => panic!("expected a binary output"),
    };
    let text_body = match text {
        Output::Base64Text { body } => body,
        _ => panic!("expected a text output"),
    };
    let json_data = match json {
        Output::Json { image_data, .. } => image_data,
        _ => panic!("expected a json output"),
    };

    assert_eq!(binary_body, gif);
    assert_eq!(json_data, expected_payload);
    let representation = text_body
        .strip_prefix("data:image/png;base64,")
        .expect("text body carries the data-URI prefix");
    assert_eq!(representation, expected_payload);
    assert_eq!(BASE64_STANDARD.decode(representation).unwrap(), binary_body);

    // the cached form is identical in all three stores
    let k = CacheKey {
        id: 5,
        filter: Filter::Fast,
    };
    for store in [&binary_store, &text_store, &json_store] {
        assert_eq!(store.lookup_fresh(k, 1), Some(expected_payload.clone()));
    }
}

// A real end-to-end miss: decodable bytes go through the pipeline and the
// response is a GIF.
#[test]
fn miss_completes_with_gif() {
    let mut store = CacheStore::new();
    let r = req(3, Mode::Binary, Filter::Quality, false);
    assert!(try_cache(&store, &r, 50).is_none());
    let out = complete_miss(&mut store, &r, 50, &tiny_png(200)).unwrap();
    match out {
        Output::Binary { body } => {
            assert_eq!(&body[0..3], b"GIF");
        }
        _ => panic!("expected a binary output"),
    }
    assert!(store.lookup_fresh(r.key(), 50).is_some());
    // a second, non-bypassed request is now a pure cache hit
    assert!(try_cache(&store, &r, 51).is_some());
}

// The transform is a pure function of its inputs: equal bytes and filter
// give byte-identical animations, and it succeeds exactly when the bytes
// decode as a PNG.
#[test]
fn transform_is_pure_and_succeeds_iff_decodable() {
    let png = tiny_png(9);
    let first = transform(&png, Filter::Fast).unwrap();
    let second = transform(&png, Filter::Fast).unwrap();
    assert_eq!(first, second);
    assert_eq!(&first[0..3], b"GIF");
    assert!(transform(&png, Filter::Quality).is_ok());
    assert!(transform(&[1u8, 2, 3], Filter::Fast).is_err());
    assert!(transform(&[], Filter::Quality).is_err());
}

// Bind configuration: present, well-formed values are taken; absence or a
// malformed port falls back to the documented defaults and never fails.
#[test]
fn bind_configuration_defaults() {
    assert_eq!(bind_defaults(None, None), (String::from("0.0.0.0"), 6969));
    assert_eq!(
        bind_defaults(Some(String::from("127.0.0.1")), Some("8080")),
        (String::from("127.0.0.1"), 8080)
    );
    assert_eq!(bind_defaults(None, Some("notaport")), (String::from("0.0.0.0"), 6969));
    assert_eq!(bind_defaults(None, Some("70000")), (String::from("0.0.0.0"), 6969));
    assert_eq!(parse_port("+80"), Some(80));
    assert_eq!(parse_port("-1"), None);
    assert_eq!(parse_port("-0"), None);
    assert_eq!(parse_port("0"), Some(0));
    assert_eq!(parse_port("65535"), Some(65535));
    assert_eq!(parse_port("65536"), None);
    assert_eq!(parse_port(""), None);
}

// An undecodable fetch result is a terminal error and is never cached.
#[test]
fn undecodable_bytes_fail_and_are_not_cached() {
    let mut store = CacheStore::new();
    let r = req(4, Mode::Binary, Filter::Quality, false);
    let res = complete_miss(&mut store, &r, 60, &[0u8, 1, 2, 3]);
    assert!(res.is_err());
    assert!(store.lookup(r.key()).is_none());
    assert!(transform(&[0u8, 1, 2, 3], Filter::Quality).is_err());
}
