//! The pages served next to the relay: a fixed template, followed by the
//! configured title and by banners that tell where the relay can be reached.

use vstd::prelude::*;
use vstd::string::StringExecFns;

verus! {

/// What opens the title appended to a page.
pub const TITLE_OPEN: &'static str = "<title>";

/// What closes the title appended to a page.
pub const TITLE_CLOSE: &'static str = "</title>";

/// What opens the banner for users on the same machine, up to the port.
pub const LOCAL_BANNER_OPEN: &'static str =
    "<p style=\"margin: 10px\">Users in localhost http://127.0.0.1:";

/// What opens the banner for the admin on the same machine, up to the port.
pub const ADMIN_BANNER_OPEN: &'static str =
    "<p style=\"margin: 10px\">Admin in localhost http://127.0.0.1:";

/// What opens the banner for users on the local network, up to the address.
pub const NETWORK_BANNER_OPEN: &'static str =
    "<p style=\"margin: 10px\">Users in local network http://";

/// What stands between an address and a port.
pub const PORT_SEPARATOR: &'static str = ":";

/// What closes the admin banner, after the port.
pub const ADMIN_BANNER_CLOSE: &'static str = "/admin</p>";

/// What closes the other banners, after the port.
pub const BANNER_CLOSE: &'static str = "</p>";

/// The character that stands for a digit below ten.
pub open spec fn digit(value: nat) -> char {
    if value == 0 {
        '0'
    } else if value == 1 {
        '1'
    } else if value == 2 {
        '2'
    } else if value == 3 {
        '3'
    } else if value == 4 {
        '4'
    } else if value == 5 {
        '5'
    } else if value == 6 {
        '6'
    } else if value == 7 {
        '7'
    } else if value == 8 {
        '8'
    } else {
        '9'
    }
}

/// A number in decimal digits, without leading zeros.
pub open spec fn decimal(value: nat) -> Seq<char>
    decreases value,
{
    if value < 10 {
        seq![digit(value)]
    } else {
        decimal(value / 10).push(digit(value % 10))
    }
}

/// The banner for users on the same machine.
pub open spec fn local_banner_text(port: u16) -> Seq<char> {
    LOCAL_BANNER_OPEN@ + decimal(port as nat) + BANNER_CLOSE@
}

/// The banner for the admin on the same machine.
pub open spec fn admin_banner_text(port: u16) -> Seq<char> {
    ADMIN_BANNER_OPEN@ + decimal(port as nat) + ADMIN_BANNER_CLOSE@
}

/// The banner for users on the local network, who reach the relay under
/// `address`.
pub open spec fn network_banner_text(address: Seq<char>, port: u16) -> Seq<char> {
    NETWORK_BANNER_OPEN@ + address + PORT_SEPARATOR@ + decimal(port as nat) + BANNER_CLOSE@
}

/// A page: the template, the title, then the three banners.
pub open spec fn page_text(
    template: Seq<char>,
    title: Seq<char>,
    local: Seq<char>,
    admin: Seq<char>,
    network: Seq<char>,
) -> Seq<char> {
    template + TITLE_OPEN@ + title + TITLE_CLOSE@ + local + admin + network
}

/// The text that `String::from_utf8_lossy` makes of a run of bytes.
pub uninterp spec fn lossy_text(bytes: Seq<u8>) -> Seq<char>;

/// What `str::trim` leaves of a text.
pub uninterp spec fn trimmed(text: Seq<char>) -> Seq<char>;

/// Calls `String::from_utf8_lossy`, which decodes bytes as UTF-8 and puts
/// U+FFFD in the place of what is not valid. The contract claims no more than
/// that the text depends on the bytes alone.
#[verifier::external_body]
fn decode_lossy(bytes: &[u8]) -> (text: String)
    ensures
        text@ == lossy_text(bytes@),
{
    String::from_utf8_lossy(bytes).into_owned()
}

/// Calls `str::trim`, which removes the white space at both ends of a text.
/// The contract claims no more than that the result depends on the text
/// alone.
#[verifier::external_body]
fn trim(text: &str) -> (inner: &str)
    ensures
        inner@ == trimmed(text@),
{
    text.trim()
}

/// The text of a digit below ten.
fn digit_text(value: u16) -> (text: &'static str)
    requires
        value < 10,
    ensures
        text@ == seq![digit(value as nat)],
{
    proof {
        reveal_strlit("0");
        reveal_strlit("1");
        reveal_strlit("2");
        reveal_strlit("3");
        reveal_strlit("4");
        reveal_strlit("5");
        reveal_strlit("6");
        reveal_strlit("7");
        reveal_strlit("8");
        reveal_strlit("9");
    }
    let text: &'static str = if value == 0 {
        "0"
    } else if value == 1 {
        "1"
    } else if value == 2 {
        "2"
    } else if value == 3 {
        "3"
    } else if value == 4 {
        "4"
    } else if value == 5 {
        "5"
    } else if value == 6 {
        "6"
    } else if value == 7 {
        "7"
    } else if value == 8 {
        "8"
    } else {
        "9"
    };
    assert(text@ =~= seq![digit(value as nat)]);
    text
}

/// A number in decimal digits, without leading zeros.
pub fn decimal_text(value: u16) -> (text: String)
    ensures
        text@ == decimal(value as nat),
    decreases value,
{
    if value < 10 {
        String::from_str(digit_text(value))
    } else {
        let mut text = decimal_text(value / 10);
        text.append(digit_text(value % 10));
        text
    }
}

/// The banner for users on the same machine.
pub fn local_banner(port: u16) -> (banner: String)
    ensures
        banner@ == local_banner_text(port),
{
    let mut banner = String::from_str(LOCAL_BANNER_OPEN);
    banner.append(decimal_text(port).as_str());
    banner.append(BANNER_CLOSE);
    banner
}

/// The banner for the admin on the same machine.
pub fn admin_banner(port: u16) -> (banner: String)
    ensures
        banner@ == admin_banner_text(port),
{
    let mut banner = String::from_str(ADMIN_BANNER_OPEN);
    banner.append(decimal_text(port).as_str());
    banner.append(ADMIN_BANNER_CLOSE);
    banner
}

/// The banner for users on the local network, who reach the relay under
/// `address`. The address is taken as it is, also when it is empty.
pub fn network_banner(address: &str, port: u16) -> (banner: String)
    ensures
        banner@ == network_banner_text(address@, port),
{
    let mut banner = String::from_str(NETWORK_BANNER_OPEN);
    banner.append(address);
    banner.append(PORT_SEPARATOR);
    banner.append(decimal_text(port).as_str());
    banner.append(BANNER_CLOSE);
    banner
}

/// The three banners of a relay on `port`: for local users, for the local
/// admin, and for users on the local network. `lookup` is what the lookup of
/// the machine's address printed, if it was made and succeeded: it is read
/// as text and trimmed. Without it the third banner is empty.
pub fn get_urls(port: u16, lookup: Option<&[u8]>) -> (urls: (String, String, String))
    ensures
        urls.0@ == local_banner_text(port),
        urls.1@ == admin_banner_text(port),
        urls.2@ == match lookup {
            Some(output) => network_banner_text(trimmed(lossy_text(output@)), port),
            None => Seq::<char>::empty(),
        },
{
    let network = match lookup {
        Some(output) => {
            let printed = decode_lossy(output);
            network_banner(trim(printed.as_str()), port)
        },
        None => String::new(),
    };
    (local_banner(port), admin_banner(port), network)
}

/// A page: the template, then the title, then the three banners.
pub fn page(template: &str, title: &str, urls: &(String, String, String)) -> (html: String)
    ensures
        html@ == page_text(template@, title@, urls.0@, urls.1@, urls.2@),
{
    let mut html = String::from_str(template);
    html.append(TITLE_OPEN);
    html.append(title);
    html.append(TITLE_CLOSE);
    html.append(urls.0.as_str());
    html.append(urls.1.as_str());
    html.append(urls.2.as_str());
    html
}

} // verus!
