use school_tasks::errors::VerfyEmailError;
use school_tasks::mail::build_register_mesage;
use school_tasks::verification::{build_error_page, build_succes_page, verification_outcome, Action};

#[test]
fn unknown_account_is_a_wrong_key() {
    assert_eq!(verification_outcome("ali", true, false, Some("ali".to_string())), Err(VerfyEmailError::WrongVerfyKey));
    assert_eq!(verification_outcome("ali", true, true, None), Err(VerfyEmailError::WrongVerfyKey));
}

#[test]
fn active_account_is_verified_already() {
    assert_eq!(verification_outcome("ali", false, true, Some("ali".to_string())), Err(VerfyEmailError::EmailAlreadyVerfied));
}

#[test]
fn second_confirmation_is_refused() {
    assert_eq!(verification_outcome("ali", false, false, Some("ali".to_string())), Ok(()));
    // once confirmed, the account is active and the key is gone
    assert_eq!(verification_outcome("ali", false, true, None), Err(VerfyEmailError::EmailAlreadyVerfied));
}

#[test]
fn key_must_belong_to_the_account() {
    assert_eq!(verification_outcome("ali", false, false, Some("bob".to_string())), Err(VerfyEmailError::WrongVerfyKey));
    assert_eq!(verification_outcome("ali", false, false, None), Err(VerfyEmailError::WrongVerfyKey));
    assert_eq!(verification_outcome("ali", false, false, Some("alice".to_string())), Err(VerfyEmailError::WrongVerfyKey));
}

#[test]
fn error_pages() {
    assert_eq!(build_error_page(VerfyEmailError::EmailAlreadyVerfied, Action::Verfy, "x@y.z"), format!("
            <div>
                <h1>Уже усе активировано, не парься!</h1>
            </div>"));
    assert_eq!(build_error_page(VerfyEmailError::EmailAlreadyVerfied, Action::Cancel, "x@y.z"), format!("
            <div>
                <h1>Кто-то уже подтвердил ваш Email!</h1>
                <p> Если вы просто решили нажать вторую кнопку, то ничего страшного, мы никому не расскажем, что вы великий
                    экспериментатор. В противном случае напиши нам на почту и расскажи чутка об этом случае.
                </p>
            </div>"));
    let page = build_error_page(VerfyEmailError::WrongVerfyKey, Action::Verfy, "team@school.uz");
    assert_eq!(page, format!("
            <div>
                <h1>Обращение к юнным хакерам!</h1>
                <p> Ты огромный молодец, что пытаешься изучить работу нашего сайта. 
                    Давай, так если ты сможешь найти баг, и хорошо описать путь его повторения, пиши на нашу почту: {}.
                    Если баг-репорт будет полным, то я переведу тебе 10к. Пойдет? Так что вот тебе ещё мотивация. 
                    Если от тебя будет очень много помощи, то у тебя будет нихилый такой шанс попасть в нашу команду разработчиков.
                </p>
            </div>", "team@school.uz"));
    assert!(page.contains("team@school.uz"));
    assert_eq!(page, build_error_page(VerfyEmailError::WrongVerfyKey, Action::Cancel, "team@school.uz"));
}

#[test]
fn success_pages() {
    assert_eq!(build_succes_page(Action::Verfy, "https://front.example"), format!("<div>
                <h1>Добро пожаловать!</h1>
                <p> Твой аккаунт активирован, теперь ты можешь войти в свой аккаунт на сайте</p>
                <a href=\"{}\"></a>
            </div>", "https://front.example"));
    assert_eq!(build_succes_page(Action::Cancel, "https://front.example"), format!("<div>
            <h1>Запрос на регистрацию успешно заблокирован!</h1>
            <p> Но все же если ты учишься в школе, обрати внимание <a href=\"{}\">на нащ сайт</a></p>
        </div>", "https://front.example"));
}

#[test]
fn register_message() {
    let verfy_ref = format!("http://127.0.0.1:8090/verefication/email/verfy/{}/{}", "ali", "key-1");
    let cancel_ref = format!("http://127.0.0.1:8090/verefication/email/cancel/{}/{}", "ali", "key-1");
    let expected = format!("
    <div>
        <p>Здравствуй, {}! C твоего аддреса электронной почты кто-то хочет зарегестрироваться в нашу маленькую и ламповою систему. Если это ты, то добро пожаловать. Смело нажимай на кнопку \"Законьчить регистрацию\", в противном случае прошу нажать на кнопку \"Отклонить регистрацию\"</p>

            <a href=\"{}\"
      style=\"background-color:#28b422;border-radius:4px;color:#ffffff;display:inline-block;font-family:sans-serif;font-size:13px;font-weight:bold;line-height:35px;text-align:center;text-decoration:none;-webkit-text-size-adjust:none;\">Законьчить регистрацию</a>
      <a href=\"{}\"
      style=\"background-color:#28b422;border-radius:4px;color:#ffffff;display:inline-block;font-family:sans-serif;font-size:13px;font-weight:bold;line-height:35px;text-align:center;text-decoration:none;width:120px;-webkit-text-size-adjust:none;\">Отклонить регистрацию</a>

    </div>", "Karimov", verfy_ref, cancel_ref);
    assert_eq!(build_register_mesage("Karimov", "key-1", "ali"), expected);
    assert!(expected.contains("http://127.0.0.1:8090/verefication/email/verfy/ali/key-1"));
    assert!(expected.contains("http://127.0.0.1:8090/verefication/email/cancel/ali/key-1"));
}
