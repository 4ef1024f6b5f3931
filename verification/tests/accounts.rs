use api_mini_bank::claims::Claims;
use api_mini_bank::error::{HashingError, TokenError, UserError};
use api_mini_bank::handlers::{after_deactivation, after_lookup, Lookup, NextStep};
use api_mini_bank::hashing::{accepted, hash_password, hashed_or_failure, verify_password};
use api_mini_bank::responses::{ApiResponse, Pagination, PaginationResponse};
use api_mini_bank::secret::JwtSecret;
use api_mini_bank::storage::{inserted_or_conflict, lookup_key, page_window};
use api_mini_bank::token::verify_token;
use api_mini_bank::user::{CreateUser, User};
use api_mini_bank::validators::{UserValidator, ValidatedUserData};

const PASSWORD_HASH: &str = "$2a$04$UuTkLRZZ6QofpDOlMz32MuuxEHA43WOemOYHPz6.SjsVsyO1tDU96";

fn stored(email: &str) -> User {
    User {
        id: "7d1f9a0e-6c55-4f0b-9a43-0123456789ab".to_string(),
        email: email.to_string(),
        name: "Ana Silva".to_string(),
        password_hash: PASSWORD_HASH.to_string(),
        is_active: true,
        created_at: 10,
        updated_at: 10,
    }
}

fn claims_of(email: &str) -> Claims {
    Claims::new("7d1f9a0e-6c55-4f0b-9a43-0123456789ab".to_string(), 2000, 1000, email.to_string())
}

#[test]
fn test_create_user() {
    let create_user = CreateUser {
        email: "test@gmail.com".to_string(),
        name: "Fulano Ciclano".to_string(),
        password: "Senha123".to_string(),
    };

    let user_result = User::try_from(create_user);
    assert!(user_result.is_ok());

    let user = user_result.unwrap();
    assert_eq!(user.email, "test@gmail.com");
    assert_eq!(user.name, "Fulano Ciclano");
    assert!(user.is_active);
}

#[test]
fn test_create_user_invalid_email() {
    let create_user = CreateUser {
        email: "fodase@gmail".to_string(),
        name: "Fulano Ciclano".to_string(),
        password: "Senha123".to_string(),
    };

    let user_result = User::try_from(create_user);
    assert!(user_result.is_err());

    match user_result.unwrap_err() {
        UserError::InvalidEmail(_) => {}
        _ => panic!("Deveria ser InvalidEmail"),
    }
}

#[test]
fn test_create_user_weak_password() {
    let create_user = CreateUser {
        email: "test@gmail.com".to_string(),
        name: "Fulano Ciclano".to_string(),
        password: "123".to_string(),
    };

    let user_result = User::try_from(create_user);
    assert!(user_result.is_err());

    match user_result.unwrap_err() {
        UserError::WeakPassword => {}
        _ => panic!("Deveria ser WeakPassword"),
    }
}

#[test]
fn registered_user_is_whole() {
    let user = User::try_from(CreateUser {
        email: "  A@B.com ".to_string(),
        name: " Ana Silva ".to_string(),
        password: "Senha123".to_string(),
    })
    .unwrap();
    assert_eq!(user.email, "a@b.com");
    assert_eq!(user.name, "Ana Silva");
    assert!(user.is_active);
    assert_eq!(user.created_at, user.updated_at);
    assert!(user.created_at > 0);
    assert_eq!(user.id.len(), 36);
    assert_ne!(user.password_hash, "Senha123");
    assert_eq!(user.password_hash.chars().count(), 60);
    assert!(verify_password("Senha123", &user.password_hash));
}

#[test]
fn registering_twice_conflicts_at_the_store() {
    let first = User::try_from(CreateUser {
        email: "a@b.com".to_string(),
        name: "Ana Silva".to_string(),
        password: "Senha123".to_string(),
    })
    .unwrap();
    let again = UserValidator::validate_email("A@B.COM").unwrap();
    assert_eq!(first.email, again);
    let id = first.id.clone();
    assert_eq!(inserted_or_conflict(Some(first.id)).unwrap(), id);
    assert!(matches!(inserted_or_conflict(None), Err(UserError::EmailAlreadyExists)));
}

#[test]
fn user_is_assembled_from_its_parts() {
    let data = ValidatedUserData {
        name: "Ana Silva".to_string(),
        email: "a@b.com".to_string(),
        password: "Senha123".to_string(),
    };
    let user = User::assemble(data, "hash".to_string(), "id-1".to_string(), 77);
    assert_eq!(user.id, "id-1");
    assert_eq!(user.email, "a@b.com");
    assert_eq!(user.name, "Ana Silva");
    assert_eq!(user.password_hash, "hash");
    assert!(user.is_active);
    assert_eq!(user.created_at, 77);
    assert_eq!(user.updated_at, 77);
}

#[test]
fn hashing_failure_is_internal() {
    assert_eq!(User::hash_or_internal(Ok("h".to_string())).unwrap(), "h");
    assert!(matches!(User::hash_or_internal(Err(HashingError::Backend)), Err(UserError::Internal)));
    assert_eq!(hashed_or_failure(Ok("h".to_string())), Ok("h".to_string()));
    assert_eq!(
        hashed_or_failure(Err(bcrypt::BcryptError::CostNotAllowed(3))),
        Err(HashingError::Backend)
    );
}

#[test]
fn hash_verifies_against_its_password() {
    let hash = hash_password("Senha123").unwrap();
    assert_ne!(hash, "Senha123");
    assert_eq!(hash.chars().count(), 60);
    assert!(verify_password("Senha123", &hash));
}

#[test]
fn hashing_twice_gives_two_hashes() {
    let first = hash_password("Senha123").unwrap();
    let second = hash_password("Senha123").unwrap();
    assert_ne!(first, second);
}

#[test]
fn wrong_password_and_bad_hash_both_give_false() {
    assert!(verify_password("password", PASSWORD_HASH));
    assert!(!verify_password("Password", PASSWORD_HASH));
    assert!(!verify_password("", PASSWORD_HASH));
    assert!(!verify_password("password", ""));
    assert!(!verify_password("password", "password"));
    assert!(!verify_password("password", "$2a$04$UuTkLRZZ6QofpDOlMz32Mu"));
    assert!(!verify_password("password", "$2a$99$UuTkLRZZ6QofpDOlMz32MuuxEHA43WOemOYHPz6.SjsVsyO1tDU96"));
    assert!(!verify_password("password", "$2a$04$ééééééééééééééééééééééééééé"));
}

#[test]
fn hashes_made_with_another_cost_still_verify() {
    let cheap = bcrypt::hash("Senha123", 5).unwrap();
    assert!(verify_password("Senha123", &cheap));
    assert!(!verify_password("Senha124", &cheap));
}

#[test]
fn only_a_clear_yes_is_accepted() {
    assert!(accepted(Ok(true)));
    assert!(!accepted(Ok(false)));
    assert!(!accepted(Err(bcrypt::BcryptError::InvalidHash("x"))));
}

#[test]
fn login_rejections_look_the_same() {
    let wrong_password = User::check_login(Some(stored("a@b.com")), "Password").unwrap_err();
    let no_such_user = User::check_login(None, "password").unwrap_err();
    assert!(matches!(wrong_password, UserError::InvalidCredentials));
    assert!(matches!(no_such_user, UserError::InvalidCredentials));
    assert_eq!(wrong_password.message(), no_such_user.message());
    let user = User::check_login(Some(stored("a@b.com")), "password").unwrap();
    assert_eq!(user.email, "a@b.com");
}

#[test]
fn login_answers_with_a_token_for_the_user() {
    let mut secret = JwtSecret::new();
    assert!(secret.set("segredo".to_string()).is_ok());
    let response = User::login(Some(stored("a@b.com")), "password", &secret).unwrap();
    assert_eq!(response.user_id, "7d1f9a0e-6c55-4f0b-9a43-0123456789ab");
    assert_eq!(response.email, "a@b.com");
    let claims = verify_token(&response.token, &secret).unwrap();
    assert_eq!(claims.sub, response.user_id);
    assert_eq!(claims.email, "a@b.com");
    assert!(matches!(
        User::login(Some(stored("a@b.com")), "Password", &secret),
        Err(UserError::InvalidCredentials)
    ));
    assert!(matches!(User::login(None, "password", &secret), Err(UserError::InvalidCredentials)));
    assert!(matches!(
        User::login(Some(stored("a@b.com")), "password", &JwtSecret::new()),
        Err(UserError::Internal)
    ));
}

#[test]
fn login_response_follows_the_issuing() {
    let response = User::login_response(stored("a@b.com"), Ok("t.o.k".to_string())).unwrap();
    assert_eq!(response.token, "t.o.k");
    assert_eq!(response.user_id, "7d1f9a0e-6c55-4f0b-9a43-0123456789ab");
    assert_eq!(response.email, "a@b.com");
    for cause in [TokenError::Signing, TokenError::MissingSecret, TokenError::ClockOutOfRange] {
        assert!(matches!(
            User::login_response(stored("a@b.com"), Err(cause)),
            Err(UserError::Internal)
        ));
    }
}

#[test]
fn only_the_owner_may_deactivate() {
    match after_lookup(&claims_of("a@b.com"), Lookup::Found(stored("a@b.com"))) {
        NextStep::Deactivate(id) => assert_eq!(id, "7d1f9a0e-6c55-4f0b-9a43-0123456789ab"),
        other => panic!("expected Deactivate, got {:?}", other),
    }
    match after_lookup(&claims_of("x@b.com"), Lookup::Found(stored("a@b.com"))) {
        NextStep::Answer(reply) => {
            assert_eq!(reply.status, 401);
            assert!(!reply.body.sucess);
            assert_eq!(reply.body.data, None);
            assert_eq!(reply.body.message, "NOT OWNER");
            assert_eq!(reply.body.error, Some("Credenciais inválidas".to_string()));
        }
        other => panic!("expected Answer, got {:?}", other),
    }
    match after_lookup(&claims_of("A@b.com"), Lookup::Found(stored("a@b.com"))) {
        NextStep::Answer(reply) => assert_eq!(reply.status, 401),
        other => panic!("expected Answer, got {:?}", other),
    }
}

#[test]
fn deactivation_without_a_user_changes_nothing() {
    match after_lookup(&claims_of("a@b.com"), Lookup::Missing) {
        NextStep::Answer(reply) => {
            assert_eq!(reply.status, 204);
            assert!(!reply.body.sucess);
            assert_eq!(reply.body.message, "usuario nao encontrado");
            assert_eq!(reply.body.error, Some("Usuário não encontrado".to_string()));
        }
        other => panic!("expected Answer, got {:?}", other),
    }
    match after_lookup(&claims_of("a@b.com"), Lookup::Failed("pool timed out".to_string())) {
        NextStep::Answer(reply) => {
            assert_eq!(reply.status, 500);
            assert_eq!(reply.body.message, "database_error");
            assert_eq!(reply.body.error, Some("pool timed out".to_string()));
        }
        other => panic!("expected Answer, got {:?}", other),
    }
}

#[test]
fn deactivation_reports_how_it_went() {
    let done = after_deactivation("id-1".to_string(), Ok(()));
    assert_eq!(done.status, 200);
    assert!(done.body.sucess);
    assert_eq!(done.body.data, Some("id-1".to_string()));
    assert_eq!(done.body.message, "conta desativada com sucesso!");
    assert_eq!(done.body.error, None);
    let again = after_deactivation("id-1".to_string(), Ok(()));
    assert_eq!(again.status, 200);
    assert_eq!(again.body.data, Some("id-1".to_string()));
    let failed = after_deactivation("id-1".to_string(), Err("closed".to_string()));
    assert_eq!(failed.status, 500);
    assert!(!failed.body.sucess);
    assert_eq!(failed.body.data, None);
    assert_eq!(failed.body.message, "Erro ao desativar usuario");
    assert_eq!(failed.body.error, Some("Erro no banco de dados: closed".to_string()));
}

#[test]
fn lookup_key_and_page_window() {
    assert_eq!(lookup_key("Ana@Example.COM"), "ana@example.com");
    assert_eq!(lookup_key("ana@example.com"), "ana@example.com");
    assert_eq!(page_window(10, 20), (10, 20));
    assert_eq!(page_window(0, 0), (1, 0));
    assert_eq!(page_window(-5, -1), (1, 0));
    assert_eq!(page_window(1, i64::MIN), (1, 0));
    assert_eq!(page_window(i32::MIN, i64::MAX), (1, i64::MAX));
    assert_eq!(page_window(i32::MAX, 1), (i32::MAX, 1));
}

#[test]
fn responses_carry_what_they_are_given() {
    let ok = ApiResponse::sucess(7u32, "feito");
    assert!(ok.sucess);
    assert_eq!(ok.data, Some(7));
    assert_eq!(ok.message, "feito");
    assert_eq!(ok.error, None);
    assert!(!ok.timestamp.is_empty());
    let failed = ApiResponse::<u32>::error("falhou", "causa");
    assert!(!failed.sucess);
    assert_eq!(failed.data, None);
    assert_eq!(failed.message, "falhou");
    assert_eq!(failed.error, Some("causa".to_string()));
    let page = PaginationResponse::new(
        vec![1u8, 2, 3],
        Pagination { page: 2, limit: 3, total: 9, pages: 3 },
        "lista",
    );
    assert!(page.sucess);
    assert_eq!(page.data, vec![1, 2, 3]);
    assert_eq!(page.pagination.page, 2);
    assert_eq!(page.pagination.limit, 3);
    assert_eq!(page.pagination.total, 9);
    assert_eq!(page.pagination.pages, 3);
    assert_eq!(page.message, "lista");
}
