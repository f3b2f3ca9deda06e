//! Verified core of a reverse proxy that serves music "drops" behind
//! NFC-tag access: the import of drop archives, the URIs it builds, and
//! the access decisions taken on tags, tokens and client addresses.

pub mod access;
pub mod import;
pub mod links;
pub mod repository;
pub mod routes;
pub mod service;
pub mod text;

use vstd::prelude::*;
use crate::service::drop::DropService;
use crate::text::{opt_string_view, strings_view};

verus! {

/// Name of the cookie and of the request header that carry an access token.
pub const TOKEN_NAME: &'static str = "dop_token";

/// File-name prefix of the drop archives found in the import directory.
pub const TAG_ARCHIVE_PREFIX: &'static str = "drop_";


/// Settings of the database connection.
#[derive(Clone, Debug)]
pub struct DbConf {
    db_host: String,
    db_port: u16,
    db_name: String,
    db_user: String,
    db_password: String,
    db_pool_size: u32,
    db_timeout: u64,
}

pub struct DbConfView {
    pub db_host: Seq<char>,
    pub db_port: u16,
    pub db_name: Seq<char>,
    pub db_user: Seq<char>,
    pub db_password: Seq<char>,
    pub db_pool_size: u32,
    pub db_timeout: u64,
}

impl View for DbConf {
    type V = DbConfView;

    closed spec fn view(&self) -> DbConfView {
        DbConfView {
            db_host: self.db_host@,
            db_port: self.db_port,
            db_name: self.db_name@,
            db_user: self.db_user@,
            db_password: self.db_password@,
            db_pool_size: self.db_pool_size,
            db_timeout: self.db_timeout,
        }
    }
}

impl DbConf {
    pub fn new(
        db_host: String,
        db_port: u16,
        db_name: String,
        db_user: String,
        db_password: String,
        db_pool_size: u32,
        db_timeout: u64,
    ) -> (r: DbConf)
        ensures
            r@ == (DbConfView {
                db_host: db_host@,
                db_port,
                db_name: db_name@,
                db_user: db_user@,
                db_password: db_password@,
                db_pool_size,
                db_timeout,
            }),
    {
        DbConf { db_host, db_port, db_name, db_user, db_password, db_pool_size, db_timeout }
    }

    pub fn db_host(&self) -> (r: &str)
        ensures
            r@ == self@.db_host,
    {
        self.db_host.as_str()
    }

    pub fn db_port(&self) -> (r: u16)
        ensures
            r == self@.db_port,
    {
        self.db_port
    }

    pub fn db_name(&self) -> (r: &str)
        ensures
            r@ == self@.db_name,
    {
        self.db_name.as_str()
    }

    pub fn db_user(&self) -> (r: &str)
        ensures
            r@ == self@.db_user,
    {
        self.db_user.as_str()
    }

    pub fn db_password(&self) -> (r: &str)
        ensures
            r@ == self@.db_password,
    {
        self.db_password.as_str()
    }

    pub fn db_pool_size(&self) -> (r: u32)
        ensures
            r == self@.db_pool_size,
    {
        self.db_pool_size
    }

    pub fn db_timeout(&self) -> (r: u64)
        ensures
            r == self@.db_timeout,
    {
        self.db_timeout
    }
}

pub open spec fn opt_db_conf_view(o: Option<DbConf>) -> Option<DbConfView> {
    match o {
        Some(d) => Some(d@),
        None => None,
    }
}

/// Settings of the proxy: the upstream server's address, the address to
/// listen on, the bad attempts allowed before a client is banned, the known
/// tags, the import directory, the database, and the web server's root.
#[derive(Clone, Debug)]
pub struct Conf {
    redirect_uri: String,
    bind_addr: String,
    max_attempts: u8,
    tags: Vec<String>,
    import_path: String,
    db_conf: Option<DbConf>,
    web_server_path: Option<String>,
}

pub struct ConfView {
    pub redirect_uri: Seq<char>,
    pub bind_addr: Seq<char>,
    pub max_attempts: u8,
    pub tags: Seq<Seq<char>>,
    pub import_path: Seq<char>,
    pub db_conf: Option<DbConfView>,
    pub web_server_path: Option<Seq<char>>,
}

impl View for Conf {
    type V = ConfView;

    closed spec fn view(&self) -> ConfView {
        ConfView {
            redirect_uri: self.redirect_uri@,
            bind_addr: self.bind_addr@,
            max_attempts: self.max_attempts,
            tags: strings_view(self.tags@),
            import_path: self.import_path@,
            db_conf: opt_db_conf_view(self.db_conf),
            web_server_path: opt_string_view(self.web_server_path),
        }
    }
}

impl Conf {
    pub fn new(
        redirect_uri: String,
        bind_addr: String,
        max_attempts: u8,
        tags: Vec<String>,
        import_path: String,
        db_conf: Option<DbConf>,
        web_server_path: Option<String>,
    ) -> (r: Conf)
        ensures
            r@ == (ConfView {
                redirect_uri: redirect_uri@,
                bind_addr: bind_addr@,
                max_attempts,
                tags: strings_view(tags@),
                import_path: import_path@,
                db_conf: opt_db_conf_view(db_conf),
                web_server_path: opt_string_view(web_server_path),
            }),
    {
        Conf { redirect_uri, bind_addr, max_attempts, tags, import_path, db_conf, web_server_path }
    }

    pub fn redirect_uri(&self) -> (r: &str)
        ensures
            r@ == self@.redirect_uri,
    {
        self.redirect_uri.as_str()
    }

    pub fn bind_addr(&self) -> (r: &str)
        ensures
            r@ == self@.bind_addr,
    {
        self.bind_addr.as_str()
    }

    pub fn max_attempts(&self) -> (r: u8)
        ensures
            r == self@.max_attempts,
    {
        self.max_attempts
    }

    pub fn tags(&self) -> (r: &Vec<String>)
        ensures
            strings_view(r@) == self@.tags,
    {
        &self.tags
    }

    pub fn import_path(&self) -> (r: &str)
        ensures
            r@ == self@.import_path,
    {
        self.import_path.as_str()
    }

    pub fn db_conf(&self) -> (r: Option<&DbConf>)
        ensures
            match r {
                Some(d) => self@.db_conf == Some(d@),
                None => self@.db_conf is None,
            },
    {
        match &self.db_conf {
            Some(d) => Some(d),
            None => None,
        }
    }

    /// The root directory of the web server that receives imported drops.
    pub fn web_server_path(&self) -> (r: Option<&String>)
        ensures
            match r {
                Some(p) => self@.web_server_path == Some(p@),
                None => self@.web_server_path is None,
            },
    {
        match &self.web_server_path {
            Some(p) => Some(p),
            None => None,
        }
    }
}

/// The description of a drop's playlist, served to clients.
#[derive(Clone, Debug)]
pub struct PlaylistData {
    artist_name: String,
    playlist_name: String,
    tracks: Vec<String>,
}

pub struct PlaylistDataView {
    pub artist_name: Seq<char>,
    pub playlist_name: Seq<char>,
    pub tracks: Seq<Seq<char>>,
}

impl View for PlaylistData {
    type V = PlaylistDataView;

    closed spec fn view(&self) -> PlaylistDataView {
        PlaylistDataView {
            artist_name: self.artist_name@,
            playlist_name: self.playlist_name@,
            tracks: strings_view(self.tracks@),
        }
    }
}

impl PlaylistData {
    pub fn new(artist_name: String, playlist_name: String, tracks: Vec<String>) -> (r: PlaylistData)
        ensures
            r@ == (PlaylistDataView {
                artist_name: artist_name@,
                playlist_name: playlist_name@,
                tracks: strings_view(tracks@),
            }),
    {
        PlaylistData { artist_name, playlist_name, tracks }
    }

    pub fn artist_name(&self) -> (r: &str)
        ensures
            r@ == self@.artist_name,
    {
        self.artist_name.as_str()
    }

    pub fn playlist_name(&self) -> (r: &str)
        ensures
            r@ == self@.playlist_name,
    {
        self.playlist_name.as_str()
    }

    pub fn tracks(&self) -> (r: &Vec<String>)
        ensures
            strings_view(r@) == self@.tracks,
    {
        &self.tracks
    }
}

/// The services the routes use.
#[derive(Clone)]
pub struct ServiceConf<T, U, V> {
    drop_service: DropService<T, U, V>,
}

impl<T, U, V> ServiceConf<T, U, V> {
    /// The drop service held.
    pub closed spec fn service(&self) -> DropService<T, U, V> {
        self.drop_service
    }

    pub fn new(drop_service: DropService<T, U, V>) -> (r: ServiceConf<T, U, V>)
        ensures
            r.service() == drop_service,
    {
        ServiceConf { drop_service }
    }

    pub fn drop_service(&self) -> (r: &DropService<T, U, V>)
        ensures
            *r == self.service(),
    {
        &self.drop_service
    }
}

} // verus!
