use chrono::Utc;
use drop_reverse_proxy::repository::redirect::Redirect;
use drop_reverse_proxy::repository::Entity;
use std::collections::HashMap;
use std::sync::{Arc, RwLock};

/// Redirects kept in memory, by id.
#[derive(Clone)]
struct RedirectRepoMock {
    map: Arc<RwLock<HashMap<i32, Redirect>>>,
}

impl RedirectRepoMock {
    fn new() -> Self {
        Self { map: Arc::new(RwLock::new(HashMap::new())) }
    }

    fn map(&self) -> &Arc<RwLock<HashMap<i32, Redirect>>> {
        &self.map
    }

    fn get(&self, id: i32) -> Option<Redirect> {
        self.map.read().unwrap().get(&id).cloned()
    }

    fn get_by_drop_id(&self, drop_id: i32) -> Option<Redirect> {
        self.map.read().unwrap().values().find(|r| r.drop_id == drop_id).cloned()
    }

    fn save_or_update(&self, entity: &Redirect) -> i32 {
        self.map.write().unwrap().insert(entity.id(), entity.clone());
        entity.id()
    }
}

#[test]
pub fn redirect_repo_mock() {
    let redirect_repo = RedirectRepoMock::new();
    assert_eq!(redirect_repo.map().read().unwrap().len(), 0);
}

#[test]
pub fn redirect_repo_mock_get_save() {
    let redirect_repo = RedirectRepoMock::new();
    let now = Utc::now().timestamp_micros();
    let redirect = Redirect::new(0, 10, now, now, String::from("redirect1"), String::from("https://example.com"));
    let save_result = redirect_repo.save_or_update(&redirect);
    assert_eq!(save_result, 0);
    assert_eq!(redirect_repo.get(0).unwrap(), redirect);
    assert_eq!(redirect_repo.get_by_drop_id(10).unwrap(), redirect);
    assert_eq!(Entity::id(&redirect), "0");
}
