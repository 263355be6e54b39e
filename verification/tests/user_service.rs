use waterbus_rs::dtos::UpdateUserDto;
use waterbus_rs::entities::User;
use waterbus_rs::errors::UserError;
use waterbus_rs::repositories::UserRepository;
use waterbus_rs::user_service::{updated_user, UserServiceImpl};

struct MockUserRepository {
    user: Option<User>,
    username_exists: bool,
    update_user_result: Option<User>,
    update_username_result: Option<User>,
}

impl UserRepository for MockUserRepository {
    fn get_user_by_id(&self, user_id: i32) -> Result<User, UserError> {
        self.user.clone().ok_or(UserError::UserNotFound(user_id))
    }

    fn update_user(&self, _user: User) -> Result<User, UserError> {
        self.update_user_result.clone().ok_or(UserError::UnexpectedError("Cannot update user".to_string()))
    }

    fn get_username(&self, username: &str) -> Result<String, UserError> {
        if self.username_exists {
            Ok(username.to_string())
        } else {
            Err(UserError::UserNameNotFound(username.to_string()))
        }
    }

    fn update_username(&self, _user_id: i32, _username: &str) -> Result<User, UserError> {
        self.update_username_result.clone().ok_or(UserError::UnexpectedError("Cannot update username".to_string()))
    }
}

fn sample_user() -> User {
    User {
        id: 1,
        full_name: Some("Test User".to_string()),
        user_name: "testuser".to_string(),
        bio: Some("bio".to_string()),
        external_id: "extid".to_string(),
        avatar: Some("avatar.png".to_string()),
        created_at: 0,
        updated_at: 0,
        deleted_at: None,
        last_seen_at: None,
    }
}

#[test]
fn test_get_user_by_id_found() {
    let repo = MockUserRepository { user: Some(sample_user()), username_exists: true, update_user_result: None, update_username_result: None };
    let mut service = UserServiceImpl::new(repo);
    let user = service.get_user_by_id(1).unwrap();
    assert_eq!(user.id, 1);
}

#[test]
fn test_get_user_by_id_not_found() {
    let repo = MockUserRepository { user: None, username_exists: false, update_user_result: None, update_username_result: None };
    let mut service = UserServiceImpl::new(repo);
    let result = service.get_user_by_id(1);
    assert!(matches!(result, Err(UserError::UserNotFound(1))));
}

#[test]
fn test_update_user_success() {
    let user = sample_user();
    let updated_user = User { full_name: Some("Updated Name".to_string()), ..user.clone() };
    let repo = MockUserRepository {
        user: Some(user.clone()),
        username_exists: true,
        update_user_result: Some(updated_user.clone()),
        update_username_result: None,
    };
    let mut service = UserServiceImpl::new(repo);
    let dto = UpdateUserDto {
        full_name: "Updated Name".to_string(),
        avatar: Some("new_avatar.png".to_string()),
        bio: Some("new bio".to_string()),
    };
    let result = service.update_user(1, dto).unwrap();
    assert_eq!(result.full_name, Some("Updated Name".to_string()));
}

#[test]
fn test_update_user_not_found() {
    let repo = MockUserRepository { user: None, username_exists: true, update_user_result: None, update_username_result: None };
    let mut service = UserServiceImpl::new(repo);
    let dto = UpdateUserDto {
        full_name: "Updated Name".to_string(),
        avatar: Some("new_avatar.png".to_string()),
        bio: Some("new bio".to_string()),
    };
    let result = service.update_user(1, dto);
    assert!(matches!(result, Err(UserError::UserNotFound(1))));
}

#[test]
fn test_check_username_exists_true() {
    let repo = MockUserRepository { user: None, username_exists: true, update_user_result: None, update_username_result: None };
    let mut service = UserServiceImpl::new(repo);
    assert!(service.check_username_exists("testuser"));
}

#[test]
fn test_check_username_exists_false() {
    let repo = MockUserRepository { user: None, username_exists: false, update_user_result: None, update_username_result: None };
    let mut service = UserServiceImpl::new(repo);
    assert!(!service.check_username_exists("testuser"));
}

#[test]
fn test_update_username_success() {
    let updated_user = User { user_name: "newname".to_string(), ..sample_user() };
    let repo = MockUserRepository {
        user: None,
        username_exists: false,
        update_user_result: None,
        update_username_result: Some(updated_user.clone()),
    };
    let mut service = UserServiceImpl::new(repo);
    let result = service.update_username(1, "newname").unwrap();
    assert_eq!(result.user_name, "newname");
}

#[test]
fn test_update_username_fail() {
    let repo = MockUserRepository { user: None, username_exists: false, update_user_result: None, update_username_result: None };
    let mut service = UserServiceImpl::new(repo);
    let result = service.update_username(1, "newname");
    assert!(result.is_err());
}

#[test]
fn profile_update_keeps_fields_not_given() {
    let dto = UpdateUserDto { full_name: "New".to_string(), avatar: None, bio: Some("b2".to_string()) };
    let user = updated_user(sample_user(), dto);
    assert_eq!(user.full_name, Some("New".to_string()));
    assert_eq!(user.avatar, Some("avatar.png".to_string()));
    assert_eq!(user.bio, Some("b2".to_string()));
    assert_eq!(user.user_name, "testuser");
}
