use waterbus_rs::auth::{
    api_key_accepted, bearer_token, AuthServiceImpl, CreateTokenDto, JwtConfig, JwtUtils,
};
use waterbus_rs::entities::{NewUser, User};
use waterbus_rs::errors::AuthError;
use waterbus_rs::repositories::AuthRepository;

fn sample_user(id: i32, external_id: &str) -> User {
    User {
        id,
        full_name: Some("Test User".to_string()),
        user_name: "testuser".to_string(),
        bio: Some("bio".to_string()),
        external_id: external_id.to_string(),
        avatar: Some("avatar.png".to_string()),
        created_at: 0,
        updated_at: 0,
        deleted_at: None,
        last_seen_at: None,
    }
}

fn sample_create_token_dto() -> CreateTokenDto {
    CreateTokenDto { full_name: "Test User".to_string(), external_id: "extid".to_string() }
}

fn jwt_config() -> JwtConfig {
    JwtConfig {
        jwt_token: "secret".to_string(),
        refresh_token: "refresh_secret".to_string(),
        token_expires_in_seconds: 3600,
        refresh_token_expires_in_seconds: 7200,
    }
}

struct MockAuthRepository {
    user_exists: Option<User>,
    create_user_result: Result<User, String>,
}

impl AuthRepository for MockAuthRepository {
    fn create_user(&self, _user: NewUser) -> Result<User, AuthError> {
        match &self.create_user_result {
            Ok(user) => Ok(user.clone()),
            Err(msg) => Err(AuthError::UnexpectedError(msg.clone())),
        }
    }

    fn get_user_by_id(&self, id: i32) -> Result<User, AuthError> {
        Err(AuthError::UserNotFound(id))
    }

    fn get_user_by_auth_id(&self, _external_id: String) -> Result<User, AuthError> {
        match &self.user_exists {
            Some(user) => Ok(user.clone()),
            None => Err(AuthError::UserNotFound(0)),
        }
    }

    fn get_user_by_user_name(&self, _username: String) -> Result<User, AuthError> {
        Err(AuthError::UserNotFound(0))
    }
}

fn claims(token: &str, secret: &str) -> serde_json::Value {
    let key = jsonwebtoken::DecodingKey::from_secret(secret.as_bytes());
    jsonwebtoken::decode::<serde_json::Value>(token, &key, &jsonwebtoken::Validation::default()).unwrap().claims
}

#[test]
fn test_login_with_social_user_exists() {
    let user = sample_user(1, "extid");
    let repo = MockAuthRepository { user_exists: Some(user.clone()), create_user_result: Ok(user.clone()) };
    let mut service = AuthServiceImpl::new(repo);
    let jwt_utils = JwtUtils::new(jwt_config());
    let result = service.login_with_social(sample_create_token_dto(), jwt_utils.clone()).unwrap();
    assert_eq!(result.user.unwrap().id, 1);
    assert!(!result.token.is_empty());
    assert!(!result.refresh_token.is_empty());
}

#[test]
fn test_login_with_social_user_not_exists_create_success() {
    let user = sample_user(2, "extid");
    let repo = MockAuthRepository { user_exists: None, create_user_result: Ok(user.clone()) };
    let mut service = AuthServiceImpl::new(repo);
    let jwt_utils = JwtUtils::new(jwt_config());
    let result = service.login_with_social(sample_create_token_dto(), jwt_utils.clone()).unwrap();
    assert_eq!(result.user.unwrap().id, 2);
    assert!(!result.token.is_empty());
    assert!(!result.refresh_token.is_empty());
}

#[test]
fn test_login_with_social_user_not_exists_create_fail() {
    let repo = MockAuthRepository { user_exists: None, create_user_result: Err("Failed to create new user".to_string()) };
    let mut service = AuthServiceImpl::new(repo);
    let jwt_utils = JwtUtils::new(jwt_config());
    let result = service.login_with_social(sample_create_token_dto(), jwt_utils.clone());
    assert!(matches!(result, Err(AuthError::UnexpectedError(_))));
}

#[test]
fn test_refresh_token() {
    let repo = MockAuthRepository { user_exists: None, create_user_result: Err("not used".to_string()) };
    let mut service = AuthServiceImpl::new(repo);
    let jwt_utils = JwtUtils::new(jwt_config());
    let result = service.refresh_token(jwt_utils.clone(), 42).unwrap();
    assert!(result.user.is_none());
    assert!(!result.token.is_empty());
    assert!(!result.refresh_token.is_empty());
}

#[test]
fn tokens_carry_the_user_id_and_their_lifetimes() {
    let repo = MockAuthRepository { user_exists: None, create_user_result: Err("not used".to_string()) };
    let mut service = AuthServiceImpl::new(repo);
    let jwt_utils = JwtUtils::new(jwt_config());
    let result = service.refresh_token(jwt_utils, 42).unwrap();
    let access = claims(&result.token, "secret");
    let refresh = claims(&result.refresh_token, "refresh_secret");
    assert_eq!(access["id"], "42");
    assert_eq!(refresh["id"], "42");
    let access_exp = access["exp"].as_i64().unwrap();
    let refresh_exp = refresh["exp"].as_i64().unwrap();
    assert!((refresh_exp - access_exp - 3600).abs() <= 2);
}

#[test]
fn token_at_a_fixed_instant_expires_after_its_lifetime() {
    let jwt_utils = JwtUtils::new(jwt_config());
    let token = jwt_utils.token_at("7", 4_000_000_000).unwrap();
    let key = jsonwebtoken::DecodingKey::from_secret("secret".as_bytes());
    let mut validation = jsonwebtoken::Validation::default();
    validation.validate_exp = false;
    let decoded = jsonwebtoken::decode::<serde_json::Value>(&token, &key, &validation).unwrap().claims;
    assert_eq!(decoded["exp"].as_i64().unwrap(), 4_000_003_600);
    assert_eq!(decoded["id"], "7");
}

#[test]
fn expiry_beyond_year_9999_issues_no_token() {
    let jwt_utils = JwtUtils::new(jwt_config());
    assert!(jwt_utils.token_at("7", 253_402_300_000).is_none());
}

#[test]
fn bearer_prefix_is_taken_off() {
    assert_eq!(bearer_token("Bearer abc"), "abc");
    assert_eq!(bearer_token("Bearer Bearer abc"), "abc");
    assert_eq!(bearer_token("abc"), "abc");
}

#[test]
fn api_key_must_match() {
    assert!(api_key_accepted(Some("k1"), "k1"));
    assert!(!api_key_accepted(Some("k2"), "k1"));
    assert!(!api_key_accepted(None, "k1"));
}

#[test]
fn a_found_user_is_answered_without_creating_one() {
    let repo = MockAuthRepository { user_exists: Some(sample_user(1, "extid")), create_user_result: Ok(sample_user(2, "extid")) };
    let mut service = AuthServiceImpl::new(repo);
    let jwt_utils = JwtUtils::new(jwt_config());
    let result = service.login_with_social(sample_create_token_dto(), jwt_utils.clone()).unwrap();
    assert_eq!(result.user.unwrap().id, 1);
    assert_eq!(jwt_utils.decode_token(&result.token).unwrap().id, "1");
    assert_eq!(jwt_utils.decode_refresh_token(&result.refresh_token).unwrap().id, "1");
}

#[test]
fn tokens_decode_only_with_their_own_secret() {
    let repo = MockAuthRepository { user_exists: None, create_user_result: Err("not used".to_string()) };
    let service = AuthServiceImpl::new(repo);
    let jwt_utils = JwtUtils::new(jwt_config());
    let result = service.refresh_token(jwt_utils.clone(), 42).unwrap();
    let access = jwt_utils.decode_token(&result.token).unwrap();
    let refresh = jwt_utils.decode_refresh_token(&result.refresh_token).unwrap();
    assert_eq!(access.id, "42");
    assert_eq!(refresh.id, "42");
    assert_eq!(access.exp, claims(&result.token, "secret")["exp"].as_i64().unwrap());
    assert!(jwt_utils.decode_token(&result.refresh_token).is_none());
    assert!(jwt_utils.decode_refresh_token(&result.token).is_none());
    assert!(jwt_utils.decode_token("not a token").is_none());
}

#[test]
fn an_expired_token_is_refused() {
    let jwt_utils = JwtUtils::new(jwt_config());
    let token = jwt_utils.token_at("7", 1_000_000_000).unwrap();
    assert!(jwt_utils.decode_token(&token).is_none());
    let fresh = jwt_utils.token_at("7", 4_000_000_000).unwrap();
    let claims = jwt_utils.decode_token(&fresh).unwrap();
    assert_eq!(claims.id, "7");
    assert_eq!(claims.exp, 4_000_003_600);
}
