use drop_reverse_proxy::repository::drop::Drop;
use drop_reverse_proxy::repository::ip::Ip;
use drop_reverse_proxy::repository::redirect::Redirect;
use drop_reverse_proxy::repository::token::Token;
use drop_reverse_proxy::repository::Entity;
use drop_reverse_proxy::service::drop::DropService;
use drop_reverse_proxy::{Conf, DbConf, PlaylistData, ServiceConf};

#[test]
fn drop_record() {
    let d = Drop::new(3, 42, "My Drop".to_string(), "artwork_42".to_string());
    assert_eq!(d.id(), 3);
    assert_eq!(d.artwork_id(), 42);
    assert_eq!(d.name(), "My Drop");
    assert_eq!(d.dir(), "artwork_42");
    assert_eq!(Entity::id(&d), "3");
    assert_eq!(Entity::id(&Drop::new(-7, 0, String::new(), String::new())), "-7");
}

#[test]
fn token_record() {
    let id: u128 = 0x550e8400_e29b_41d4_a716_446655440000;
    let t = Token::new(id, 12);
    assert_eq!(t.id(), id);
    assert_eq!(t.tag_id(), 12);
    assert_eq!(t.create_date(), 0);
    assert_eq!(Entity::id(&t), "550e8400-e29b-41d4-a716-446655440000");
    assert_eq!(Token::from_record(id, 99, 1).create_date(), 99);
}

#[test]
fn ip_record() {
    let ip = Ip::new("10.0.0.1".to_string(), 1, 2, 3);
    assert_eq!(ip.addr(), "10.0.0.1");
    assert_eq!(ip.first_seen(), 1);
    assert_eq!(ip.last_seen(), 2);
    assert_eq!(*ip.nb_bad_attempts(), 3);
    assert_eq!(Entity::id(&ip), "10.0.0.1");
}

#[test]
fn redirect_record() {
    let r = Redirect::new(0, 10, 5, 6, "redirect1".to_string(), "https://example.com".to_string());
    assert_eq!(r.id(), 0);
    assert_eq!(r.drop_id, 10);
    assert_eq!(r.name(), "redirect1");
    assert_eq!(r.link(), "https://example.com");
    assert_eq!(Entity::id(&r), "0");
}

#[test]
fn configuration_getters() {
    let db = DbConf::new("h".to_string(), 5432, "n".to_string(), "u".to_string(), "p".to_string(), 10, 30);
    assert_eq!(db.db_host(), "h");
    assert_eq!(db.db_port(), 5432);
    assert_eq!(db.db_name(), "n");
    assert_eq!(db.db_user(), "u");
    assert_eq!(db.db_password(), "p");
    assert_eq!(db.db_pool_size(), 10);
    assert_eq!(db.db_timeout(), 30);
    let conf = Conf::new(
        "http://up".to_string(),
        "0.0.0.0:3000".to_string(),
        5,
        vec!["t1".to_string()],
        "/imp".to_string(),
        Some(db),
        Some("/web".to_string()),
    );
    assert_eq!(conf.redirect_uri(), "http://up");
    assert_eq!(conf.bind_addr(), "0.0.0.0:3000");
    assert_eq!(conf.max_attempts(), 5);
    assert_eq!(conf.tags(), &vec!["t1".to_string()]);
    assert_eq!(conf.import_path(), "/imp");
    assert_eq!(conf.db_conf().map(|d| d.db_port()), Some(5432));
    assert_eq!(conf.web_server_path().map(|p| p.as_str()), Some("/web"));
    let bare = Conf::new(String::new(), String::new(), 0, vec![], String::new(), None, None);
    assert!(bare.db_conf().is_none());
    assert!(bare.web_server_path().is_none());
}

#[test]
fn playlist_and_services() {
    let p = PlaylistData::new("artist".to_string(), "list".to_string(), vec!["a".to_string(), "b".to_string()]);
    assert_eq!(p.artist_name(), "artist");
    assert_eq!(p.playlist_name(), "list");
    assert_eq!(p.tracks().len(), 2);
    let s = DropService::new(1u8, 2u16, 3u32);
    assert_eq!(*s.drop_repository(), 1);
    assert_eq!(*s.artist_repository(), 2);
    assert_eq!(*s.artwork_repository(), 3);
    let c = ServiceConf::new(s.clone());
    assert_eq!(*c.drop_service().artwork_repository(), 3);
}
