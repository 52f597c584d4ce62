use hybrid_bar::config::{get_bars, get_framerate, get_sed, PipelineConfig, Settings, DEFAULT_SED};
use hybrid_bar::launch::{launch_command, render_temp_config, StartGuard, TEMP_CONFIG_PATH};
use hybrid_bar::text::{decimal, replace_all};

fn settings(bars: Option<i32>, framerate: Option<i32>, sed: Option<&str>) -> Settings {
    Settings {
        cava_bars: bars,
        cava_framerate: framerate,
        cava_sed: sed.map(|s| s.to_string()),
    }
}

#[test]
fn absent_settings_take_defaults() {
    let s = settings(None, None, None);
    assert_eq!(get_bars(&s), 5);
    assert_eq!(get_framerate(&s), 60);
    assert_eq!(get_sed(&s), DEFAULT_SED);
    assert_eq!(
        get_sed(&s),
        "s/;//g;s/0/▁/g;s/1/▂/g;s/2/▃/g;s/3/▄/g;s/4/▅/g;s/5/▆/g;s/6/▇/g;s/7/█/g;"
    );
}

#[test]
fn bar_count_is_clamped() {
    assert_eq!(get_bars(&settings(Some(1), None, None)), 2);
    assert_eq!(get_bars(&settings(Some(-7), None, None)), 2);
    assert_eq!(get_bars(&settings(Some(2), None, None)), 2);
    assert_eq!(get_bars(&settings(Some(9), None, None)), 9);
    assert_eq!(get_bars(&settings(Some(16), None, None)), 16);
    assert_eq!(get_bars(&settings(Some(17), None, None)), 16);
    assert_eq!(get_bars(&settings(Some(i32::MAX), None, None)), 16);
}

#[test]
fn framerate_is_clamped() {
    assert_eq!(get_framerate(&settings(None, Some(30), None)), 60);
    assert_eq!(get_framerate(&settings(None, Some(i32::MIN), None)), 60);
    assert_eq!(get_framerate(&settings(None, Some(144), None)), 144);
    assert_eq!(get_framerate(&settings(None, Some(360), None)), 360);
    assert_eq!(get_framerate(&settings(None, Some(1000), None)), 360);
}

#[test]
fn every_request_resolves_in_range() {
    for v in [i32::MIN, -1, 0, 1, 2, 5, 16, 17, 59, 60, 61, 200, 360, 361, i32::MAX] {
        let c = PipelineConfig::from_settings(&settings(Some(v), Some(v), None));
        assert!(2 <= c.bar_count && c.bar_count <= 16);
        assert!(60 <= c.framerate && c.framerate <= 360);
    }
    let c = PipelineConfig::from_settings(&settings(None, None, None));
    assert!(2 <= c.bar_count && c.bar_count <= 16);
    assert!(60 <= c.framerate && c.framerate <= 360);
}

#[test]
fn configured_rule_is_kept() {
    let c = PipelineConfig::from_settings(&settings(Some(8), Some(120), Some("s/0/_/g;")));
    assert_eq!(c.bar_count, 8);
    assert_eq!(c.framerate, 120);
    assert_eq!(c.transform_rule, "s/0/_/g;");
}

#[test]
fn decimal_text_of_integers() {
    assert_eq!(decimal(0), "0");
    assert_eq!(decimal(7), "7");
    assert_eq!(decimal(10), "10");
    assert_eq!(decimal(360), "360");
    assert_eq!(decimal(-42), "-42");
    assert_eq!(decimal(i32::MAX), "2147483647");
    assert_eq!(decimal(i32::MIN), "-2147483648");
}

#[test]
fn replace_all_matches_std() {
    let cases = [
        ("a[x]b[x]", "[x]", "12"),
        ("aaa", "aa", "X"),
        ("nothing here", "zz", "!"),
        ("", "a", "b"),
        ("▁▂▃▁", "▁", "0"),
        ("[x][x]", "[x]", ""),
    ];
    for (s, p, w) in cases {
        assert_eq!(replace_all(s, p, w), s.replace(p, w));
    }
    assert_eq!(replace_all("aaa", "aa", "X"), "Xa");
}

#[test]
fn temp_config_with_defaults() {
    let c = PipelineConfig::from_settings(&settings(None, None, None));
    assert_eq!(
        render_temp_config(&c),
        "[general]\nframerate = 60\nbars = 5\n\n[output]\nmethod = raw\nraw_target = /dev/stdout\n\
         data_format = ascii\nascii_max_range = 7\nbar_delimiter = 59\nframe_delimiter = 10\n"
    );
}

#[test]
fn temp_config_uses_clamped_bar_count() {
    let c = PipelineConfig::from_settings(&settings(Some(1), None, None));
    let text = render_temp_config(&c);
    assert!(text.contains("\nbars = 2\n"));
    assert!(!text.contains("[bars]"));
    assert!(!text.contains("bars = 1\n"));
}

#[test]
fn temp_config_fills_both_slots() {
    let c = PipelineConfig::from_settings(&settings(Some(12), Some(240), None));
    let text = render_temp_config(&c);
    assert!(text.contains("\nframerate = 240\n"));
    assert!(text.contains("\nbars = 12\n"));
    assert!(!text.contains("[framerate]"));
}

#[test]
fn launch_command_pipes_through_sed() {
    assert_eq!(
        launch_command(TEMP_CONFIG_PATH, "s/;//g;"),
        "cava -p /tmp/hybrid_bar_cava.conf | sed -u 's/;//g;'"
    );
    assert_eq!(launch_command("", ""), "cava -p  | sed -u ''");
}

#[test]
fn start_guard_admits_one_start() {
    let mut g = StartGuard::new();
    assert!(!g.has_started());
    assert!(g.try_start());
    assert!(g.has_started());
    assert!(!g.try_start());
    assert!(g.has_started());
}
