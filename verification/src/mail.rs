use vstd::prelude::*;

verus! {

/// The link that confirms the registration of `username` with `key`.
pub open spec fn verify_link(username: Seq<char>, key: Seq<char>) -> Seq<char> {
    "http://127.0.0.1:8090/verefication/email/verfy/"@ + username + "/"@ + key
}

/// The link that cancels the registration of `username` with `key`.
pub open spec fn cancel_link(username: Seq<char>, key: Seq<char>) -> Seq<char> {
    "http://127.0.0.1:8090/verefication/email/cancel/"@ + username + "/"@ + key
}

/// The body of the e-mail that asks `name` to confirm a registration.
pub open spec fn register_message(name: Seq<char>, key: Seq<char>, username: Seq<char>) -> Seq<
    char,
> {
    "
    <div>
        <p>Здравствуй, "@ + name
        + "! C твоего аддреса электронной почты кто-то хочет зарегестрироваться в нашу маленькую и ламповою систему. Если это ты, то добро пожаловать. Смело нажимай на кнопку \"Законьчить регистрацию\", в противном случае прошу нажать на кнопку \"Отклонить регистрацию\"</p>

            <a href=\""@ + verify_link(username, key)
        + "\"
      style=\"background-color:#28b422;border-radius:4px;color:#ffffff;display:inline-block;font-family:sans-serif;font-size:13px;font-weight:bold;line-height:35px;text-align:center;text-decoration:none;-webkit-text-size-adjust:none;\">Законьчить регистрацию</a>
      <a href=\""@ + cancel_link(username, key)
        + "\"
      style=\"background-color:#28b422;border-radius:4px;color:#ffffff;display:inline-block;font-family:sans-serif;font-size:13px;font-weight:bold;line-height:35px;text-align:center;text-decoration:none;width:120px;-webkit-text-size-adjust:none;\">Отклонить регистрацию</a>

    </div>"@
}

/// A link: `prefix`, the username, a slash and the key.
fn build_link(prefix: &str, username: &str, key: &str) -> (r: String)
    ensures
        r@ == prefix@ + username@ + "/"@ + key@,
{
    let mut link = String::from_str(prefix);
    link.append(username);
    link.append("/");
    link.append(key);
    link
}

/// The body of the e-mail that asks `name` to confirm the registration of
/// `username`; its links carry `verefication_key`.
pub fn build_register_mesage(name: &str, verefication_key: &str, username: &str) -> (r: String)
    ensures
        r@ == register_message(name@, verefication_key@, username@),
{
    proof {
        reveal_strlit("/");
        reveal_strlit("/");
        reveal_strlit("/");
    }
    let verfy_ref = build_link("http://127.0.0.1:8090/verefication/email/verfy/", username, verefication_key);
    let cancel_ref = build_link("http://127.0.0.1:8090/verefication/email/cancel/", username, verefication_key);
    let mut message = String::from_str("
    <div>
        <p>Здравствуй, ");
    message.append(name);
    message.append("! C твоего аддреса электронной почты кто-то хочет зарегестрироваться в нашу маленькую и ламповою систему. Если это ты, то добро пожаловать. Смело нажимай на кнопку \"Законьчить регистрацию\", в противном случае прошу нажать на кнопку \"Отклонить регистрацию\"</p>

            <a href=\"");
    message.append(verfy_ref.as_str());
    message.append("\"
      style=\"background-color:#28b422;border-radius:4px;color:#ffffff;display:inline-block;font-family:sans-serif;font-size:13px;font-weight:bold;line-height:35px;text-align:center;text-decoration:none;-webkit-text-size-adjust:none;\">Законьчить регистрацию</a>
      <a href=\"");
    message.append(cancel_ref.as_str());
    message.append("\"
      style=\"background-color:#28b422;border-radius:4px;color:#ffffff;display:inline-block;font-family:sans-serif;font-size:13px;font-weight:bold;line-height:35px;text-align:center;text-decoration:none;width:120px;-webkit-text-size-adjust:none;\">Отклонить регистрацию</a>

    </div>");
    message
}

} // verus!
