use news_sync::config::Config;

#[test]
fn a_configuration_keeps_what_it_was_made_with() {
    let config = Config::new(String::from("/var/lib/news"), 8080);
    assert_eq!(config.news_root(), "/var/lib/news");
    assert_eq!(config.port(), 8080);
}

#[test]
fn a_copy_of_a_configuration_is_equal_to_it() {
    let config = Config::new(String::from("news"), 1);
    let copy = config.clone();
    assert_eq!(copy, config);
    assert_eq!(copy.news_root(), "news");
    assert_eq!(copy.port(), 1);
}

#[test]
fn an_empty_root_and_the_extreme_ports_are_kept_as_given() {
    let low = Config::new(String::new(), 0);
    assert_eq!(low.news_root(), "");
    assert_eq!(low.port(), 0);
    let high = Config::new(String::from("/"), u16::MAX);
    assert_eq!(high.news_root(), "/");
    assert_eq!(high.port(), 65535);
}
