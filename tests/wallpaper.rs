use bing_wallpaper::actions::{post_actions, Apply};
use bing_wallpaper::api::{first_image, get_api_url, Response};
use bing_wallpaper::args::{mode, Arguments, Modes};
use bing_wallpaper::catalog::{is_supported_market, is_supported_resolution, pick_market, pick_resolution};
use bing_wallpaper::download::{join, plan_save};
use bing_wallpaper::error::WallpaperError;
use bing_wallpaper::freshness::{is_cache_valid, is_valid_from, start_instant};
use bing_wallpaper::image::{clean_name, ImageObject};
use bing_wallpaper::session::{Action, Event, Phase, Session};
use bing_wallpaper::text::{replace_char, replace_double_dot, same_text, starts_with};

fn image(startdate: &str, urlbase: &str, resolution: Option<&str>) -> ImageObject {
    ImageObject {
        startdate: startdate.to_string(),
        fullstartdate: format!("{}1500", startdate),
        enddate: String::new(),
        url: String::new(),
        urlbase: urlbase.to_string(),
        copyright: String::new(),
        copyrightlink: String::new(),
        title: "Vieste".to_string(),
        quiz: String::new(),
        wp: true,
        hsh: String::new(),
        drk: 1,
        top: 1,
        bot: 1,
        resolution: resolution.map(|r| r.to_string()),
        market: Some("en-US".to_string()),
        file_hash: None,
    }
}

fn args() -> Arguments {
    Arguments {
        silent: false,
        mode: Modes::Fill,
        custom_command: None,
        backup_dir: None,
        market: Some("en-US".to_string()),
        resolution: Some("1920x1080".to_string()),
    }
}

const VIESTE: &str = "/th?id=OHR.ViesteItaly_EN-US0948108910";

#[test]
fn filename_and_url_for_known_descriptor() {
    let img = image("20231013", VIESTE, Some("1920x1080"));
    assert_eq!(
        img.get_save_filename().unwrap(),
        "20231013-ViesteItaly_EN-US0948108910_1920x1080.jpg"
    );
    assert_eq!(
        img.get_download_url("1920x1080"),
        "https://bing.com/th?id=OHR.ViesteItaly_EN-US0948108910_1920x1080.jpg"
    );
}

#[test]
fn filename_is_stable_across_calls() {
    for r in ["auto", "UHD", "1920x1200", "1920x1080", "1366x768", "1280x720", "1024x768", "800x600"] {
        let a = image("20231013", VIESTE, Some(r));
        let b = image("20231013", VIESTE, Some(r));
        let first = a.get_save_filename().unwrap();
        assert_eq!(first, a.get_save_filename().unwrap());
        assert_eq!(first, b.get_save_filename().unwrap());
        assert!(first.ends_with(&format!("_{}.jpg", r)));
    }
}

#[test]
fn filename_rejects_missing_marker() {
    for u in ["/th?id=ABC.ViesteItaly", "", "/", "/th?id=OHR", "/th?id=OHR.x/other", "th?id=ohr.X"] {
        let img = image("20231013", u, None);
        assert_eq!(
            img.get_save_filename(),
            Err(WallpaperError::UnparseableUrlBase(u.to_string()))
        );
    }
}

#[test]
fn filename_replaces_double_dots() {
    let img = image("20231013", "/th?id=OHR...%2F..%2Fetc", Some("UHD"));
    let name = img.get_save_filename().unwrap();
    assert_eq!(name, "20231013-_%2F_%2Fetc_UHD.jpg");
    assert!(!name.contains(".."));
    assert_eq!(clean_name("/a/th?id=OHR.a..b....c").unwrap(), "a_b__c");
    assert_eq!(clean_name("/th?id=OHR..."), Some("_".to_string()));
}

#[test]
fn filename_defaults_resolution() {
    let none = image("20231013", VIESTE, None);
    assert_eq!(none.get_save_filename().unwrap(), "20231013-ViesteItaly_EN-US0948108910_UHD.jpg");
    let odd = image("20231013", VIESTE, Some("123x45"));
    assert_eq!(odd.get_save_filename().unwrap(), "20231013-ViesteItaly_EN-US0948108910_UHD.jpg");
    assert_eq!(
        odd.get_download_url("123x45"),
        "https://bing.com/th?id=OHR.ViesteItaly_EN-US0948108910_UHD.jpg"
    );
}

#[test]
fn filename_without_slash_uses_whole_fragment() {
    let img = image("20231013", "th?id=OHR.Plain", Some("800x600"));
    assert_eq!(img.get_save_filename().unwrap(), "20231013-Plain_800x600.jpg");
}

#[test]
fn freshness_window_of_one_day() {
    let img = image("20231013", VIESTE, Some("1920x1080"));
    let res = Some("1920x1080".to_string());
    let mkt = Some("en-US".to_string());
    let t: i64 = 1_697_200_000;
    assert!(is_valid_from(Some(t), &img, &res, &mkt, t + 23 * 3600 + 59 * 60));
    assert!(!is_valid_from(Some(t), &img, &res, &mkt, t + 24 * 3600 + 60));
    assert!(is_valid_from(Some(t), &img, &res, &mkt, t + 86_399));
    assert!(!is_valid_from(Some(t), &img, &res, &mkt, t + 86_400));
    assert!(!is_valid_from(None, &img, &res, &mkt, t));
}

#[test]
fn freshness_reads_start_date() {
    let img = image("20231013", VIESTE, Some("1920x1080"));
    let res = Some("1920x1080".to_string());
    let mkt = Some("en-US".to_string());
    let t = start_instant(&img).unwrap();
    assert!(is_cache_valid(&img, &res, &mkt, t + 23 * 3600 + 59 * 60));
    assert!(!is_cache_valid(&img, &res, &mkt, t + 24 * 3600 + 60));
    let mut bad = img.clone();
    bad.fullstartdate = "not a date".to_string();
    assert_eq!(start_instant(&bad), None);
    assert!(!is_cache_valid(&bad, &res, &mkt, t));
}

#[test]
fn freshness_market_change_invalidates() {
    let img = image("20231013", VIESTE, Some("1920x1080"));
    let res = Some("1920x1080".to_string());
    let t: i64 = 1_697_200_000;
    assert!(!is_valid_from(Some(t), &img, &res, &Some("ja-JP".to_string()), t + 60));
    assert!(!is_valid_from(Some(t), &img, &res, &None, t + 60));
    assert!(!is_valid_from(Some(t), &img, &None, &Some("en-US".to_string()), t + 60));
}

#[test]
fn unset_request_matches_unset_cache() {
    let mut img = image("20231013", VIESTE, None);
    img.market = None;
    let t: i64 = 1_697_200_000;
    assert!(is_valid_from(Some(t), &img, &None, &None, t + 60));
}

#[test]
fn unknown_market_falls_back() {
    assert_eq!(get_api_url("xx-XX"), get_api_url("en-US"));
    assert_eq!(
        get_api_url("en-US"),
        "https://www.bing.com/HPImageArchive.aspx?format=js&idx=0&n=1&mbl=1&mkt=en-US"
    );
    assert_eq!(
        get_api_url("ja-JP"),
        "https://www.bing.com/HPImageArchive.aspx?format=js&idx=0&n=1&mbl=1&mkt=ja-JP"
    );
    assert!(!is_supported_market("xx-XX"));
    assert!(is_supported_market("zh-TW"));
    assert_eq!(pick_market("en-us"), "en-US");
}

#[test]
fn resolution_allow_list() {
    assert!(is_supported_resolution("auto"));
    assert!(is_supported_resolution("800x600"));
    assert!(!is_supported_resolution("4K"));
    assert_eq!(pick_resolution("4K"), "UHD");
    assert_eq!(pick_resolution("1366x768"), "1366x768");
}

#[test]
fn empty_image_list_is_an_error() {
    assert_eq!(
        first_image(Response { images: Some(vec![]) }).unwrap_err(),
        WallpaperError::NoImageAvailable
    );
    assert_eq!(first_image(Response { images: None }).unwrap_err(), WallpaperError::NoImageAvailable);
    let img = first_image(Response { images: Some(vec![image("1", "/a", None), image("2", "/b", None)]) }).unwrap();
    assert_eq!(img.startdate, "1");
}

fn session_at_fetch() -> Session {
    let mut s = Session::new(args(), Some("/home/u".to_string()), "/data".to_string());
    assert!(matches!(s.step(Event::Begin), Action::ReadCache));
    match s.step(Event::CacheRead(None)) {
        Action::Fetch(url) => assert_eq!(url, get_api_url("en-US")),
        other => panic!("unexpected {:?}", other),
    }
    s
}

#[test]
fn empty_answer_fails_without_writing_cache() {
    let mut s = session_at_fetch();
    match s.step(Event::Fetched(Ok(Response { images: Some(vec![]) }))) {
        Action::Abort(e) => assert_eq!(e, WallpaperError::NoImageAvailable),
        other => panic!("unexpected {:?}", other),
    }
    assert_eq!(s.phase, Phase::Failed);
    assert!(s.image.is_none());
}

#[test]
fn transport_error_aborts() {
    let mut s = session_at_fetch();
    let err = WallpaperError::ImageRequestFailed("https://x, err: down".to_string());
    match s.step(Event::Fetched(Err(err.clone()))) {
        Action::Abort(e) => assert_eq!(e, err),
        other => panic!("unexpected {:?}", other),
    }
}

fn session_at_destination() -> Session {
    let mut s = session_at_fetch();
    let fetched = image("20231013", VIESTE, None);
    match s.step(Event::Fetched(Ok(Response { images: Some(vec![fetched]) }))) {
        Action::WriteCache(img) => {
            assert_eq!(img.resolution, Some("1920x1080".to_string()));
            assert_eq!(img.market, Some("en-US".to_string()));
        }
        other => panic!("unexpected {:?}", other),
    }
    match s.step(Event::CacheWritten) {
        Action::CheckDestination(plan) => {
            assert_eq!(plan.path, "/data/.wallpaper.jpg");
            assert_eq!(
                plan.url,
                "https://bing.com/th?id=OHR.ViesteItaly_EN-US0948108910_1920x1080.jpg"
            );
        }
        other => panic!("unexpected {:?}", other),
    }
    s
}

#[test]
fn existing_file_is_not_downloaded_again() {
    let mut first = session_at_destination();
    assert!(matches!(first.step(Event::DestinationChecked(false)), Action::Download(_)));
    for _ in 0..2 {
        let mut again = session_at_destination();
        assert!(matches!(again.step(Event::DestinationChecked(true)), Action::Finish));
        assert_eq!(again.phase, Phase::Done);
    }
}

#[test]
fn new_file_leads_to_post_actions() {
    let mut s = session_at_destination();
    assert!(matches!(s.step(Event::DestinationChecked(false)), Action::Download(_)));
    match s.step(Event::Transferred) {
        Action::PostActions(p) => {
            match p.apply {
                Apply::Setter { flag, path } => {
                    assert_eq!(flag, "--bg-fill");
                    assert_eq!(path, "/data/.wallpaper.jpg");
                }
                other => panic!("unexpected {:?}", other),
            }
            let n = p.notice.unwrap();
            assert_eq!(n.summary, "BingWallpaper");
            assert_eq!(n.body, "Wallpaper successfully Set.\nTitle: Vieste");
            assert_eq!(n.icon, "image-jpeg");
        }
        other => panic!("unexpected {:?}", other),
    }
    assert!(matches!(s.step(Event::PostActionsDone), Action::Finish));
    assert!(matches!(s.step(Event::Begin), Action::Idle));
}

#[test]
fn fresh_cache_ends_the_run() {
    let mut cached = image("20231013", VIESTE, Some("1920x1080"));
    cached.fullstartdate = chrono::Local::now().format("%Y%m%d%H%M").to_string();
    let mut s = Session::new(args(), None, "/data".to_string());
    s.step(Event::Begin);
    assert!(matches!(s.step(Event::CacheRead(Some(cached))), Action::Finish));
    assert_eq!(s.phase, Phase::Done);
}

#[test]
fn stale_or_changed_cache_is_fetched_again() {
    let cached = image("20231013", VIESTE, Some("1920x1080"));
    let mut s = Session::new(args(), None, "/data".to_string());
    s.step(Event::Begin);
    let mut old = cached.clone();
    old.fullstartdate = "200001010000".to_string();
    assert!(matches!(s.step(Event::CacheRead(Some(old))), Action::Fetch(_)));
    let mut s2 = Session::new(args(), None, "/data".to_string());
    s2.step(Event::Begin);
    let mut other_market = cached;
    other_market.market = Some("ja-JP".to_string());
    assert!(matches!(s2.step(Event::CacheRead(Some(other_market))), Action::Fetch(_)));
}

#[test]
fn custom_commands_and_silence() {
    let mut a = args();
    a.silent = true;
    a.custom_command = Some(vec!["cp % /tmp/x".to_string(), "echo %%".to_string(), "true".to_string()]);
    let p = post_actions(&a, "t", "/p/i.jpg");
    assert!(p.notice.is_none());
    match p.apply {
        Apply::Commands(c) => assert_eq!(c, vec!["cp /p/i.jpg /tmp/x", "echo /p/i.jpg/p/i.jpg", "true"]),
        other => panic!("unexpected {:?}", other),
    }
}

#[test]
fn backup_plans() {
    let mut img = image("20231013", VIESTE, Some("1920x1080"));
    let home = Some("/home/u".to_string());
    let p = plan_save(&img, &Some("~/pics".to_string()), &home, "/data").unwrap();
    assert_eq!(p.dir, "/home/u/pics");
    assert_eq!(p.path, "/home/u/pics/20231013-ViesteItaly_EN-US0948108910_1920x1080.jpg");
    assert!(p.create_dir);
    let q = plan_save(&img, &Some("/b/".to_string()), &None, "/data").unwrap();
    assert_eq!(q.path, "/b/20231013-ViesteItaly_EN-US0948108910_1920x1080.jpg");
    assert_eq!(
        plan_save(&img, &Some("~/pics".to_string()), &None, "/data").unwrap_err(),
        WallpaperError::HomeDirUnavailable
    );
    let d = plan_save(&img, &None, &None, "/data").unwrap();
    assert_eq!(d.path, "/data/.wallpaper.jpg");
    assert!(!d.create_dir);
    img.urlbase = "/nothing".to_string();
    assert_eq!(
        plan_save(&img, &Some("/b".to_string()), &home, "/data").unwrap_err(),
        WallpaperError::UnparseableUrlBase("/nothing".to_string())
    );
}

#[test]
fn mode_flags() {
    assert_eq!(mode(Modes::Center), "--bg-center");
    assert_eq!(mode(Modes::Fill), "--bg-fill");
    assert_eq!(mode(Modes::Max), "--bg-max");
    assert_eq!(mode(Modes::Scale), "--bg-scale");
    assert_eq!(mode(Modes::Tile), "--bg-tile");
}

#[test]
fn text_helpers() {
    assert_eq!(replace_char("~/a~b", '~', "/h"), "/h/a/hb");
    assert_eq!(replace_double_dot("a...b"), "a_.b");
    assert_eq!(replace_double_dot(".."), "_");
    assert_eq!(replace_double_dot("."), ".");
    assert!(same_text("ja-JP", "ja-JP"));
    assert!(!same_text("ja-JP", "ja-J"));
    assert!(starts_with("th?id=OHR.x", "th?id=OHR."));
    assert!(!starts_with("th?", "th?id"));
    assert_eq!(join("", "f"), "f");
    assert_eq!(join("/d", "f"), "/d/f");
}
