use vstd::prelude::*;

use crate::errors::VerfyEmailError;

verus! {

/// What a pupil asked for through an e-mail link.
#[derive(Debug, Clone, Copy, PartialEq, Eq, Structural)]
pub enum Action {
    /// Confirm the registration.
    Verfy,
    /// Cancel the registration.
    Cancel,
}

/// The answer to a verification link: a wrong key where no account of that
/// name exists (`username_free`); otherwise refused as verified already where
/// the account is active; otherwise accepted where the key's stored owner is
/// the pupil, and a wrong key where the key is unknown or belongs to someone else.
pub open spec fn verification_result(
    username: Seq<char>,
    username_free: bool,
    already_active: bool,
    key_owner: Option<Seq<char>>,
) -> Result<(), VerfyEmailError> {
    if username_free {
        Err(VerfyEmailError::WrongVerfyKey)
    } else if already_active {
        Err(VerfyEmailError::EmailAlreadyVerfied)
    } else if key_owner == Some(username) {
        Ok(())
    } else {
        Err(VerfyEmailError::WrongVerfyKey)
    }
}

/// A key confirms only the account it was stored for, and only while that
/// account exists and is not active yet.
pub proof fn lemma_key_confirms_only_its_owner(
    username: Seq<char>,
    username_free: bool,
    already_active: bool,
    key_owner: Option<Seq<char>>,
)
    requires
        verification_result(username, username_free, already_active, key_owner) is Ok,
    ensures
        !username_free,
        !already_active,
        key_owner == Some(username),
{
}

/// A key is accepted exactly for the account it was stored for, while that
/// account exists and is not active yet; every other link is refused.
pub proof fn lemma_key_accepted_exactly_for_owner(
    username: Seq<char>,
    username_free: bool,
    already_active: bool,
    key_owner: Option<Seq<char>>,
)
    ensures
        verification_result(username, username_free, already_active, key_owner) is Ok <==> (
        !username_free && !already_active && key_owner == Some(username)),
{
}

/// Once an account is confirmed it is active, and every further link for it
/// is refused as verified already, whatever key it carries.
pub proof fn lemma_confirmed_account_refuses(username: Seq<char>, key_owner: Option<Seq<char>>)
    ensures
        verification_result(username, false, true, key_owner) == Err::<(), VerfyEmailError>(
            VerfyEmailError::EmailAlreadyVerfied,
        ),
{
}

/// Decides whether a verification key may be used by `username`.
/// `username_free` says whether no account of that name exists,
/// `already_active` whether the account is active already, and `key_owner`
/// the username stored with the key, if the key is known. The stored key is
/// to be dropped exactly where the result is `Ok`.
pub fn verification_outcome(
    username: &str,
    username_free: bool,
    already_active: bool,
    key_owner: Option<String>,
) -> (r: Result<(), VerfyEmailError>)
    ensures
        r == verification_result(
            username@,
            username_free,
            already_active,
            match key_owner {
                Some(o) => Some(o@),
                None => None,
            },
        ),
{
    if username_free {
        return Err(VerfyEmailError::WrongVerfyKey);
    }
    if already_active {
        return Err(VerfyEmailError::EmailAlreadyVerfied);
    }
    match key_owner {
        Some(owner) => {
            if crate::text::str_equal(username, owner.as_str()) {
                Ok(())
            } else {
                Err(VerfyEmailError::WrongVerfyKey)
            }
        },
        None => Err(VerfyEmailError::WrongVerfyKey),
    }
}

/// The page shown when a verification link fails.
pub open spec fn error_page(error: VerfyEmailError, action: Action, company_email: Seq<char>) -> Seq<
    char,
> {
    match error {
        VerfyEmailError::EmailAlreadyVerfied => match action {
            Action::Verfy => "
            <div>
                <h1>Уже усе активировано, не парься!</h1>
            </div>"@,
            Action::Cancel => "
            <div>
                <h1>Кто-то уже подтвердил ваш Email!</h1>
                <p> Если вы просто решили нажать вторую кнопку, то ничего страшного, мы никому не расскажем, что вы великий
                    экспериментатор. В противном случае напиши нам на почту и расскажи чутка об этом случае.
                </p>
            </div>"@,
        },
        VerfyEmailError::WrongVerfyKey => "
            <div>
                <h1>Обращение к юнным хакерам!</h1>
                <p> Ты огромный молодец, что пытаешься изучить работу нашего сайта. 
                    Давай, так если ты сможешь найти баг, и хорошо описать путь его повторения, пиши на нашу почту: "@ + company_email
            + ".
                    Если баг-репорт будет полным, то я переведу тебе 10к. Пойдет? Так что вот тебе ещё мотивация. 
                    Если от тебя будет очень много помощи, то у тебя будет нихилый такой шанс попасть в нашу команду разработчиков.
                </p>
            </div>"@,
    }
}

/// The page shown when a verification link fails; `company_email` is the
/// address that pupils may write to.
pub fn build_error_page(error: VerfyEmailError, action: Action, company_email: &str) -> (r: String)
    ensures
        r@ == error_page(error, action, company_email@),
{
    match error {
        VerfyEmailError::EmailAlreadyVerfied => match action {
            Action::Verfy => String::from_str("
            <div>
                <h1>Уже усе активировано, не парься!</h1>
            </div>"),
            Action::Cancel => String::from_str("
            <div>
                <h1>Кто-то уже подтвердил ваш Email!</h1>
                <p> Если вы просто решили нажать вторую кнопку, то ничего страшного, мы никому не расскажем, что вы великий
                    экспериментатор. В противном случае напиши нам на почту и расскажи чутка об этом случае.
                </p>
            </div>"),
        },
        VerfyEmailError::WrongVerfyKey => {
            let mut page = String::from_str("
            <div>
                <h1>Обращение к юнным хакерам!</h1>
                <p> Ты огромный молодец, что пытаешься изучить работу нашего сайта. 
                    Давай, так если ты сможешь найти баг, и хорошо описать путь его повторения, пиши на нашу почту: ");
            page.append(company_email);
            page.append(".
                    Если баг-репорт будет полным, то я переведу тебе 10к. Пойдет? Так что вот тебе ещё мотивация. 
                    Если от тебя будет очень много помощи, то у тебя будет нихилый такой шанс попасть в нашу команду разработчиков.
                </p>
            </div>");
            page
        },
    }
}

/// The page shown when a verification link succeeds.
pub open spec fn success_page(action: Action, frontend: Seq<char>) -> Seq<char> {
    match action {
        Action::Verfy => "<div>
                <h1>Добро пожаловать!</h1>
                <p> Твой аккаунт активирован, теперь ты можешь войти в свой аккаунт на сайте</p>
                <a href=\""@ + frontend + "\"></a>
            </div>"@,
        Action::Cancel => "<div>
            <h1>Запрос на регистрацию успешно заблокирован!</h1>
            <p> Но все же если ты учишься в школе, обрати внимание <a href=\""@ + frontend + "\">на нащ сайт</a></p>
        </div>"@,
    }
}

/// The page shown when a verification link succeeds; `frontend` is the
/// address of the site's front end.
pub fn build_succes_page(action: Action, frontend: &str) -> (r: String)
    ensures
        r@ == success_page(action, frontend@),
{
    match action {
        Action::Verfy => {
            let mut page = String::from_str("<div>
                <h1>Добро пожаловать!</h1>
                <p> Твой аккаунт активирован, теперь ты можешь войти в свой аккаунт на сайте</p>
                <a href=\"");
            page.append(frontend);
            page.append("\"></a>
            </div>");
            page
        },
        Action::Cancel => {
            let mut page = String::from_str("<div>
            <h1>Запрос на регистрацию успешно заблокирован!</h1>
            <p> Но все же если ты учишься в школе, обрати внимание <a href=\"");
            page.append(frontend);
            page.append("\">на нащ сайт</a></p>
        </div>");
            page
        },
    }
}

} // verus!
