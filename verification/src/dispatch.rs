//! Composition of the confirmation email: the confirmation URL, the fixed
//! subject, and the two body renderings (HTML and plain text) that embed
//! the identical URL — plus recovery of the URL and its token, so the link
//! a recipient follows can be checked against what was composed.

use vstd::prelude::*;
use vstd::string::{StrSliceExecFns, StringExecFns};

use crate::models::ValidEmail;
use crate::token::is_alphanumeric_char;

verus! {

/// This application's own externally-visible base URL, used to build the
/// confirmation link.
#[derive(Debug, Clone)]
pub struct ApplicationBaseUrl(pub String);

/// The view of an [`EmailMessage`].
#[verifier::ext_equal]
pub ghost struct EmailMessageModel {
    pub to: Seq<char>,
    pub subject: Seq<char>,
    pub html_body: Seq<char>,
    pub text_body: Seq<char>,
}

/// One outbound email, ready for the email-sending collaborator.
#[derive(Debug, Clone)]
pub struct EmailMessage {
    pub to: String,
    pub subject: String,
    pub html_body: String,
    pub text_body: String,
}

impl View for EmailMessage {
    type V = EmailMessageModel;

    open spec fn view(&self) -> EmailMessageModel {
        EmailMessageModel {
            to: self.to@,
            subject: self.subject@,
            html_body: self.html_body@,
            text_body: self.text_body@,
        }
    }
}

/// The confirmation URL: `<baseUrl>/confirm?token=<token>`.
pub open spec fn confirmation_link(base: Seq<char>, token: Seq<char>) -> Seq<char> {
    base + "/confirm?token="@ + token
}

/// The HTML rendering of the confirmation body, embedding the link.
pub open spec fn html_body_of(link: Seq<char>) -> Seq<char> {
    "Welcome to our newsletter!<br />Click <a href=\""@ + link
        + "\">here</a> to confirm your subscription."@
}

/// The plain-text rendering of the confirmation body, embedding the link.
pub open spec fn text_body_of(link: Seq<char>) -> Seq<char> {
    "Welcome to our newsletter!\nVisit "@ + link + " to confirm your subscription."@
}

/// The whole confirmation email for one recipient and token.
pub open spec fn confirmation_email_model(
    base: Seq<char>,
    to: Seq<char>,
    token: Seq<char>,
) -> EmailMessageModel {
    EmailMessageModel {
        to,
        subject: "Welcome!"@,
        html_body: html_body_of(confirmation_link(base, token)),
        text_body: text_body_of(confirmation_link(base, token)),
    }
}

/// Builds `<baseUrl>/confirm?token=<token>`.
pub fn build_confirmation_link(base_url: &str, token: &str) -> (r: String)
    ensures
        r@ == confirmation_link(base_url@, token@),
{
    let mut s = String::new();
    s.append(base_url);
    s.append("/confirm?token=");
    s.append(token);
    proof {
        assert(s@ =~= confirmation_link(base_url@, token@));
    }
    s
}

/// Composes the confirmation email: fixed subject "Welcome!", and an HTML
/// body and a plain-text body each embedding the identical confirmation
/// link.
pub fn compose_confirmation_email(
    base_url: &ApplicationBaseUrl,
    recipient: &ValidEmail,
    token: &str,
) -> (m: EmailMessage)
    ensures
        m@ == confirmation_email_model(base_url.0@, recipient@, token@),
{
    let link = build_confirmation_link(base_url.0.as_str(), token);

    let mut html = String::new();
    html.append("Welcome to our newsletter!<br />Click <a href=\"");
    html.append(link.as_str());
    html.append("\">here</a> to confirm your subscription.");

    let mut text = String::new();
    text.append("Welcome to our newsletter!\nVisit ");
    text.append(link.as_str());
    text.append(" to confirm your subscription.");

    let m = EmailMessage {
        to: String::from_str(recipient.as_str()),
        subject: String::from_str("Welcome!"),
        html_body: html,
        text_body: text,
    };
    proof {
        assert(m@.html_body =~= html_body_of(confirmation_link(base_url.0@, token@)));
        assert(m@.text_body =~= text_body_of(confirmation_link(base_url.0@, token@)));
        assert(m@ =~= confirmation_email_model(base_url.0@, recipient@, token@));
    }
    m
}

/// Characters that end a URL in a message body (and may precede one).
pub open spec fn is_link_delimiter(c: char) -> bool {
    c == '"' || c == ' ' || c == '\n' || c == '<' || c == '>'
}

/// The pattern `pat` occurs in `body` starting at index `i`.
pub open spec fn matches_at(body: Seq<char>, i: int, pat: Seq<char>) -> bool {
    &&& 0 <= i
    &&& i + pat.len() <= body.len()
    &&& forall|k: int| 0 <= k < pat.len() ==> body[i + k] == #[trigger] pat[k]
}

/// A URL begins at index `i`: the scheme prefix `http` occurs there, at the
/// start of the body or right after a delimiter.
pub open spec fn url_start_at(body: Seq<char>, i: int) -> bool {
    &&& matches_at(body, i, "http"@)
    &&& (i == 0 || is_link_delimiter(body[i - 1]))
}

/// The index just past the URL that begins at `j`: the first delimiter at
/// or after `j`, or the end of the body.
pub open spec fn url_end_from(body: Seq<char>, j: int) -> int
    decreases body.len() - j,
{
    if j >= body.len() {
        body.len() as int
    } else if is_link_delimiter(body[j]) {
        j
    } else {
        url_end_from(body, j + 1)
    }
}

/// The URL that begins at index `i`.
pub open spec fn url_at(body: Seq<char>, i: int) -> Seq<char> {
    body.subrange(i, url_end_from(body, i))
}

fn is_link_delimiter_char(c: char) -> (r: bool)
    ensures
        r == is_link_delimiter(c),
{
    c == '"' || c == ' ' || c == '\n' || c == '<' || c == '>'
}

fn is_url_start(body: &str, i: usize, len: usize) -> (r: bool)
    requires
        len == body@.len(),
        i < len,
    ensures
        r == url_start_at(body@, i as int),
{
    proof {
        reveal_strlit("http");
        assert("http"@.len() == 4);
        assert("http"@[0] == 'h' && "http"@[1] == 't' && "http"@[2] == 't' && "http"@[3] == 'p');
    }
    if len - i < 4 {
        return false;
    }
    if body.get_char(i) != 'h' || body.get_char(i + 1) != 't' || body.get_char(i + 2) != 't'
        || body.get_char(i + 3) != 'p' {
        return false;
    }
    proof {
        assert forall|k: int| 0 <= k < "http"@.len() implies body@[i + k] == #[trigger] "http"@[k]
        by {
            assert("http"@[0] == 'h' && "http"@[1] == 't' && "http"@[2] == 't' && "http"@[3]
                == 'p');
        }
    }
    if i == 0 {
        true
    } else {
        is_link_delimiter_char(body.get_char(i - 1))
    }
}

proof fn lemma_url_end_at(body: Seq<char>, start: int, j: int)
    requires
        0 <= start <= j <= body.len(),
        forall|k: int| start <= k < j ==> !is_link_delimiter(#[trigger] body[k]),
        j == body.len() || is_link_delimiter(body[j]),
    ensures
        url_end_from(body, start) == j,
    decreases j - start,
{
    if start < j {
        lemma_url_end_at(body, start + 1, j);
    }
}

fn find_url_end(body: &str, start: usize, len: usize) -> (e: usize)
    requires
        len == body@.len(),
        start <= len,
    ensures
        e == url_end_from(body@, start as int),
        start <= e <= len,
{
    let mut j = start;
    while j < len
        invariant
            len == body@.len(),
            start <= j <= len,
            forall|k: int| start <= k < j ==> !is_link_delimiter(#[trigger] body@[k]),
        decreases len - j,
    {
        if is_link_delimiter_char(body.get_char(j)) {
            proof {
                lemma_url_end_at(body@, start as int, j as int);
            }
            return j;
        }
        j += 1;
    }
    proof {
        lemma_url_end_at(body@, start as int, len as int);
    }
    len
}

/// Finds the first URL in a message body: the text from the first
/// delimiter-preceded `http` up to the next delimiter. Returns `None` when
/// the body contains no URL.
pub fn extract_first_link(body: &str) -> (r: Option<String>)
    ensures
        r matches Some(l) ==> exists|i: int|
            #[trigger] url_start_at(body@, i) && l@ == url_at(body@, i) && (forall|j: int|
                0 <= j < i ==> !url_start_at(body@, j)),
        r is None ==> forall|i: int| !url_start_at(body@, i),
{
    let len = body.unicode_len();
    let mut i: usize = 0;
    while i < len
        invariant
            len == body@.len(),
            i <= len,
            forall|j: int| 0 <= j < i ==> !url_start_at(body@, j),
        decreases len - i,
    {
        if is_url_start(body, i, len) {
            let e = find_url_end(body, i, len);
            let l = body.substring_char(i, e);
            return Some(String::from_str(l));
        }
        i += 1;
    }
    proof {
        assert forall|j: int| !url_start_at(body@, j) by {
            if 0 <= j < len {
            } else {
                assert(!matches_at(body@, j, "http"@)) by {
                    reveal_strlit("http");
                }
            }
        }
    }
    None
}

/// Recovers the token from a confirmation link built against this base URL;
/// `None` exactly when the link is not `<baseUrl>/confirm?token=<...>`.
pub fn token_from_link(link: &str, base_url: &str) -> (r: Option<String>)
    ensures
        r matches Some(t) ==> link@ == confirmation_link(base_url@, t@),
        r is None ==> forall|t: Seq<char>| link@ != confirmation_link(base_url@, t),
{
    let mut prefix = String::new();
    prefix.append(base_url);
    prefix.append("/confirm?token=");
    proof {
        assert(prefix@ =~= base_url@ + "/confirm?token="@);
    }
    let plen = prefix.as_str().unicode_len();
    let llen = link.unicode_len();
    if llen < plen {
        proof {
            assert forall|t: Seq<char>| link@ != confirmation_link(base_url@, t) by {
                assert(confirmation_link(base_url@, t).len() >= plen);
            }
        }
        return None;
    }
    let head = link.substring_char(0, plen);
    if crate::text::str_eq(head, prefix.as_str()) {
        let tail = link.substring_char(plen, llen);
        let t = String::from_str(tail);
        proof {
            assert(link@ =~= link@.subrange(0, plen as int) + link@.subrange(
                plen as int,
                llen as int,
            ));
            assert(link@ =~= confirmation_link(base_url@, t@));
        }
        Some(t)
    } else {
        proof {
            assert forall|t: Seq<char>| link@ != confirmation_link(base_url@, t) by {
                if link@ == confirmation_link(base_url@, t) {
                    assert(link@.subrange(0, plen as int) =~= base_url@ + "/confirm?token="@);
                    assert(head@ == prefix@);
                }
            }
        }
        None
    }
}


/// Well-formedness of a base URL for link composition: it begins with the
/// scheme prefix `http` and contains no character that delimits a URL.
pub open spec fn base_url_wf(base: Seq<char>) -> bool {
    &&& matches_at(base, 0, "http"@)
    &&& forall|i: int| 0 <= i < base.len() ==> !is_link_delimiter(#[trigger] base[i])
}

proof fn lemma_alnum_not_delim(c: char)
    requires
        is_alphanumeric_char(c),
    ensures
        !is_link_delimiter(c),
{
}

/// No character of the confirmation link delimits a URL: the base URL is
/// delimiter-free by assumption, the fixed path segment by inspection, and
/// the token because it is alphanumeric.
proof fn lemma_link_free_of_delimiters(base: Seq<char>, token: Seq<char>)
    requires
        forall|i: int| 0 <= i < base.len() ==> !is_link_delimiter(#[trigger] base[i]),
        forall|i: int| 0 <= i < token.len() ==> is_alphanumeric_char(#[trigger] token[i]),
    ensures
        forall|k: int|
            0 <= k < confirmation_link(base, token).len() ==> !is_link_delimiter(
                #[trigger] confirmation_link(base, token)[k],
            ),
{
    reveal_strlit("/confirm?token=");
    let lit = "/confirm?token="@;
    assert(lit.len() == 15);
    assert forall|j: int| 0 <= j < 15 implies !is_link_delimiter(#[trigger] lit[j]) by {
        assert(j == 0 || j == 1 || j == 2 || j == 3 || j == 4 || j == 5 || j == 6 || j == 7
            || j == 8 || j == 9 || j == 10 || j == 11 || j == 12 || j == 13 || j == 14);
    }
    let link = confirmation_link(base, token);
    assert forall|k: int| 0 <= k < link.len() implies !is_link_delimiter(#[trigger] link[k]) by {
        if k < base.len() {
            assert((base + lit)[k] == base[k]);
            assert(link[k] == base[k]);
        } else if k < base.len() + 15 {
            assert((base + lit)[k] == lit[k - base.len()]);
            assert(link[k] == lit[k - base.len()]);
        } else {
            assert(link[k] == token[k - base.len() - 15]);
            lemma_alnum_not_delim(token[k - base.len() - 15]);
        }
    }
}

/// A body of the form `pre + link + post` — where `pre` ends with a
/// delimiter, `post` begins with one, neither frame contains the character
/// pair `ht`, and the link begins with `http` and holds no delimiter — has
/// exactly one URL: the link itself, starting right after `pre`.
proof fn lemma_framed_body_single_url(pre: Seq<char>, link: Seq<char>, post: Seq<char>)
    requires
        pre.len() > 0,
        is_link_delimiter(pre[pre.len() - 1]),
        forall|i: int|
            0 <= i < pre.len() - 1 ==> !((#[trigger] pre[i]) == 'h' && pre[i + 1] == 't'),
        post.len() > 0,
        is_link_delimiter(post[0]),
        forall|j: int|
            0 <= j < post.len() - 1 ==> !((#[trigger] post[j]) == 'h' && post[j + 1] == 't'),
        matches_at(link, 0, "http"@),
        forall|k: int| 0 <= k < link.len() ==> !is_link_delimiter(#[trigger] link[k]),
    ensures
        forall|i: int| #[trigger] url_start_at(pre + link + post, i) <==> i == pre.len(),
        url_at(pre + link + post, pre.len() as int) == link,
{
    reveal_strlit("http");
    assert("http"@.len() == 4);
    assert("http"@[0] == 'h' && "http"@[1] == 't' && "http"@[2] == 't' && "http"@[3] == 'p');
    let body = pre + link + post;
    let p = pre.len() as int;
    let l = link.len() as int;
    assert(l >= 4);
    assert forall|idx: int| 0 <= idx < body.len() implies ((idx < p ==> body[idx] == pre[idx]) && (
    p <= idx < p + l ==> body[idx] == link[idx - p]) && (p + l <= idx ==> body[idx] == post[idx - p
        - l])) by {
        if idx < p {
            assert((pre + link)[idx] == pre[idx]);
        } else if idx < p + l {
            assert((pre + link)[idx] == link[idx - p]);
        }
    }
    assert(url_start_at(body, p)) by {
        assert forall|k: int| 0 <= k < "http"@.len() implies body[p + k] == #[trigger] "http"@[k]
        by {
            assert(body[p + k] == link[k]);
        }
        assert(body[p - 1] == pre[p - 1]);
    }
    assert forall|i: int| i != p implies !url_start_at(body, i) by {
        if 0 <= i && i + 4 <= body.len() {
            if i < p {
                assert(body[i] == pre[i]);
                if matches_at(body, i, "http"@) {
                    assert(body[i] == "http"@[0]);
                    assert(pre[i] == 'h');
                    assert(i < p - 1);
                    assert(body[i + 1] == pre[i + 1]);
                    assert(body[i + 1] == "http"@[1]);
                    assert(false);
                }
            } else if i <= p + l {
                assert(body[i - 1] == link[i - 1 - p]);
                assert(!is_link_delimiter(body[i - 1]));
            } else {
                if matches_at(body, i, "http"@) {
                    assert(body[i] == post[i - p - l]);
                    assert(body[i + 1] == post[i + 1 - p - l]);
                    assert(body[i] == "http"@[0]);
                    assert(body[i + 1] == "http"@[1]);
                    assert(false);
                }
            }
        }
    }
    lemma_url_end_at(body, p, p + l);
    assert(url_at(body, p) == body.subrange(p, p + l));
    assert(body.subrange(p, p + l) =~= link);
}

/// Law: dual-body invariant — the HTML body and the plain-text body of the
/// confirmation email each contain exactly one URL, and the two URLs are
/// identical: the confirmation link itself.
pub proof fn lemma_dual_body_single_link(base: Seq<char>, token: Seq<char>)
    requires
        base_url_wf(base),
        forall|i: int| 0 <= i < token.len() ==> is_alphanumeric_char(#[trigger] token[i]),
    ensures
        ({
            let link = confirmation_link(base, token);
            let html = html_body_of(link);
            let text = text_body_of(link);
            let hp = "Welcome to our newsletter!<br />Click <a href=\""@.len() as int;
            let tp = "Welcome to our newsletter!\nVisit "@.len() as int;
            &&& (forall|i: int| #[trigger] url_start_at(html, i) <==> i == hp)
            &&& (forall|i: int| #[trigger] url_start_at(text, i) <==> i == tp)
            &&& url_at(html, hp) == link
            &&& url_at(text, tp) == link
        }),
{
    let link = confirmation_link(base, token);
    lemma_link_free_of_delimiters(base, token);
    assert(matches_at(link, 0, "http"@)) by {
        reveal_strlit("http");
        assert(base.len() >= 4);
        assert forall|k: int| 0 <= k < "http"@.len() implies link[k] == #[trigger] "http"@[k] by {
            assert((base + "/confirm?token="@)[k] == base[k]);
            assert(link[k] == base[k]);
            assert(base[k] == "http"@[k]);
        }
    }
    let ha = "Welcome to our newsletter!<br />Click <a href=\""@;
    let hb = "\">here</a> to confirm your subscription."@;
    let ta = "Welcome to our newsletter!\nVisit "@;
    let tb = " to confirm your subscription."@;
    reveal_strlit("Welcome to our newsletter!<br />Click <a href=\"");
    reveal_strlit("\">here</a> to confirm your subscription.");
    reveal_strlit("Welcome to our newsletter!\nVisit ");
    reveal_strlit(" to confirm your subscription.");
    assert(ha.len() == 47 && hb.len() == 40 && ta.len() == 33 && tb.len() == 30);
    assert(is_link_delimiter(ha[46]) && is_link_delimiter(hb[0]) && is_link_delimiter(ta[32])
        && is_link_delimiter(tb[0]));
    assert forall|i: int| 0 <= i < 46 implies !((#[trigger] ha[i]) == 'h' && ha[i + 1] == 't') by {
        assert(i == 0 || i == 1 || i == 2 || i == 3 || i == 4 || i == 5 || i == 6 || i == 7
            || i == 8 || i == 9 || i == 10 || i == 11 || i == 12 || i == 13 || i == 14
            || i == 15 || i == 16 || i == 17 || i == 18 || i == 19 || i == 20 || i == 21
            || i == 22 || i == 23 || i == 24 || i == 25 || i == 26 || i == 27 || i == 28
            || i == 29 || i == 30 || i == 31 || i == 32 || i == 33 || i == 34 || i == 35
            || i == 36 || i == 37 || i == 38 || i == 39 || i == 40 || i == 41 || i == 42
            || i == 43 || i == 44 || i == 45);
    }
    assert forall|i: int| 0 <= i < 39 implies !((#[trigger] hb[i]) == 'h' && hb[i + 1] == 't') by {
        assert(i == 0 || i == 1 || i == 2 || i == 3 || i == 4 || i == 5 || i == 6 || i == 7
            || i == 8 || i == 9 || i == 10 || i == 11 || i == 12 || i == 13 || i == 14
            || i == 15 || i == 16 || i == 17 || i == 18 || i == 19 || i == 20 || i == 21
            || i == 22 || i == 23 || i == 24 || i == 25 || i == 26 || i == 27 || i == 28
            || i == 29 || i == 30 || i == 31 || i == 32 || i == 33 || i == 34 || i == 35
            || i == 36 || i == 37 || i == 38);
    }
    assert forall|i: int| 0 <= i < 32 implies !((#[trigger] ta[i]) == 'h' && ta[i + 1] == 't') by {
        assert(i == 0 || i == 1 || i == 2 || i == 3 || i == 4 || i == 5 || i == 6 || i == 7
            || i == 8 || i == 9 || i == 10 || i == 11 || i == 12 || i == 13 || i == 14
            || i == 15 || i == 16 || i == 17 || i == 18 || i == 19 || i == 20 || i == 21
            || i == 22 || i == 23 || i == 24 || i == 25 || i == 26 || i == 27 || i == 28
            || i == 29 || i == 30 || i == 31);
    }
    assert forall|i: int| 0 <= i < 29 implies !((#[trigger] tb[i]) == 'h' && tb[i + 1] == 't') by {
        assert(i == 0 || i == 1 || i == 2 || i == 3 || i == 4 || i == 5 || i == 6 || i == 7
            || i == 8 || i == 9 || i == 10 || i == 11 || i == 12 || i == 13 || i == 14
            || i == 15 || i == 16 || i == 17 || i == 18 || i == 19 || i == 20 || i == 21
            || i == 22 || i == 23 || i == 24 || i == 25 || i == 26 || i == 27 || i == 28);
    }
    lemma_framed_body_single_url(ha, link, hb);
    lemma_framed_body_single_url(ta, link, tb);
}


} // verus!
