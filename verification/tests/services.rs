use pv_hub::scheduler::{next_backoff, weather_step, WeatherStep};
use pv_hub::sinks::http::mime_for;

#[test]
fn mime_types_by_extension() {
    assert_eq!(mime_for("index.html"), "text/html; charset=utf-8");
    assert_eq!(mime_for("app.js"), "application/javascript");
    assert_eq!(mime_for("styles.css"), "text/css");
    assert_eq!(mime_for("img/logo.png"), "image/png");
    assert_eq!(mime_for("sun.svg"), "image/svg+xml");
    assert_eq!(mime_for("data.bin"), "application/octet-stream");
    assert_eq!(mime_for("css"), "application/octet-stream");
    assert_eq!(mime_for(""), "application/octet-stream");
}

#[test]
fn weather_backoff_doubles_up_to_poll_interval() {
    let mut backoff = 1u64;
    let mut sleeps = Vec::new();
    for _ in 0..6 {
        let step = weather_step(backoff, false, 10);
        sleeps.push(step.sleep_s);
        backoff = step.backoff;
    }
    assert_eq!(sleeps, vec![1, 2, 4, 8, 10, 10]);
    assert_eq!(weather_step(backoff, true, 10), WeatherStep { sleep_s: 10, backoff: 1 });
}

#[test]
fn weather_backoff_cap_is_at_least_two() {
    assert_eq!(weather_step(1, false, 0), WeatherStep { sleep_s: 1, backoff: 2 });
    assert_eq!(weather_step(2, false, 1), WeatherStep { sleep_s: 2, backoff: 2 });
    assert_eq!(next_backoff(3, 100), 6);
    assert_eq!(next_backoff(60, 60), 60);
}
