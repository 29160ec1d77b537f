use vollibrespot::console::line_style;
use vollibrespot::console::list_backends;
use vollibrespot::console::log_filters;
use vollibrespot::console::Colour;
use vollibrespot::console::Severity;

#[test]
fn grave_records_show_no_module() {
    let cases = [
        (Severity::Info, Colour::White),
        (Severity::Warn, Colour::Yellow),
        (Severity::Error, Colour::Red),
    ];
    for (severity, colour) in cases {
        let style = line_style(severity, Some(String::from("librespot::core")));
        assert_eq!(style.tag, Colour::Cyan);
        assert_eq!(style.text, colour);
        assert_eq!(style.module, "");
        assert_eq!(style.module_colour, None);
    }
}

#[test]
fn detailed_records_show_their_module() {
    for severity in [Severity::Debug, Severity::Trace] {
        let style = line_style(severity, Some(String::from("librespot::core")));
        assert_eq!(style.text, Colour::Green);
        assert_eq!(style.module, "librespot::core");
        assert_eq!(style.module_colour, Some(Colour::Yellow));
        assert_eq!(line_style(severity, None).module, "vollibrespot");
    }
}

#[test]
fn the_environment_decides_what_is_logged() {
    let plain = log_filters(false, None);
    assert_eq!(plain.filters, "libmdns=info,librespot=info,vollibrespot=info");
    assert!(!plain.overridden);
    let verbose = log_filters(true, None);
    assert_eq!(verbose.filters, "libmdns=info,librespot=debug,vollibrespot=trace");
    assert!(!verbose.overridden);
    let set = log_filters(false, Some(String::from("warn")));
    assert_eq!(set.filters, "warn");
    assert!(!set.overridden);
    assert!(log_filters(true, Some(String::from("warn"))).overridden);
}

#[test]
fn the_first_backend_is_the_default() {
    assert_eq!(list_backends(&vec![]), vec!["Available Backends : "]);
    assert_eq!(
        list_backends(&vec![String::from("alsa"), String::from("pipe"), String::from("rodio")]),
        vec!["Available Backends : ", "- alsa (default)", "- pipe", "- rodio"],
    );
}
