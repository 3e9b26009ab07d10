//! Reaching the GNOME Shell extension that draws the overlay on GNOME
//! Wayland, over the session D-Bus.
use vstd::prelude::*;
use zbus::blocking::{Connection, Proxy};

verus! {

/// Declares `zbus::blocking::Connection`.
#[verifier::external_type_specification]
#[verifier::external_body]
pub struct ExConnection(Connection);

/// Declares `zbus::blocking::Proxy`.
#[verifier::external_type_specification]
#[verifier::external_body]
pub struct ExProxy<'a>(Proxy<'a>);

/// Declares `zbus::Error`.
#[verifier::external_type_specification]
#[verifier::external_body]
pub struct ExZbusError(zbus::Error);

/// The extension's well-known bus name.
pub const BUS_NAME: &'static str = "com.ajitid.VoxtralSpeechToText.Overlay";

/// The extension's object path.
pub const OBJECT_PATH: &'static str = "/com/ajitid/VoxtralSpeechToText/Overlay";

/// The extension's interface.
pub const INTERFACE: &'static str = "com.ajitid.VoxtralSpeechToText.Overlay1";

/// The text every failure to reach the extension starts with.
pub open spec fn extension_required() -> Seq<char> {
    "GNOME Shell overlay extension is required on GNOME Wayland but is not available. Install with scripts/install-gnome-shell-extension.sh, enable it, then log out/in."@
}

/// Where reaching the extension failed.
#[derive(Debug, Clone, Copy, PartialEq, Eq, Structural)]
pub enum OverlayCheckFailure {
    /// No session bus.
    Connect,
    /// No proxy for the extension's object.
    Proxy,
    /// The extension did not answer `Ping`.
    Ping,
}

/// What the message says before the error's own text.
pub open spec fn failure_prefix(stage: OverlayCheckFailure) -> Seq<char> {
    match stage {
        OverlayCheckFailure::Connect => "Session D-Bus connection error: "@,
        OverlayCheckFailure::Proxy => "GNOME Shell overlay D-Bus proxy error: "@,
        OverlayCheckFailure::Ping => "Ping failed: "@,
    }
}

/// The message for a failure at `stage` with error text `detail`.
pub open spec fn failure_message_spec(stage: OverlayCheckFailure, detail: Seq<char>) -> Seq<
    char,
> {
    extension_required() + "\n"@ + failure_prefix(stage) + detail
}

/// The message for a failure at `stage` with error text `detail`.
pub fn overlay_failure_message(stage: OverlayCheckFailure, detail: &str) -> (r: String)
    ensures
        r@ == failure_message_spec(stage, detail@),
{
    let mut m = "GNOME Shell overlay extension is required on GNOME Wayland but is not available. Install with scripts/install-gnome-shell-extension.sh, enable it, then log out/in.".to_owned();
    m.append("\n");
    match stage {
        OverlayCheckFailure::Connect => m.append("Session D-Bus connection error: "),
        OverlayCheckFailure::Proxy => m.append("GNOME Shell overlay D-Bus proxy error: "),
        OverlayCheckFailure::Ping => m.append("Ping failed: "),
    }
    m.append(detail);
    m
}

/// `zbus::blocking::Connection::session`: whether a session bus is reached
/// depends on the machine, so nothing is stated of the result.
#[verifier::external_body]
fn session_bus() -> Result<Connection, zbus::Error> {
    Connection::session()
}

/// `zbus::blocking::Proxy::new` for an object on `conn`; the result depends
/// on the bus, so nothing is stated of it. The library builds a proxy only
/// for the overlay extension's object, and the `requires` holds every call
/// to that destination, path and interface.
#[verifier::external_body]
fn new_proxy<'a>(
    conn: &'a Connection,
    destination: &'static str,
    path: &'static str,
    interface: &'static str,
) -> Result<Proxy<'a>, zbus::Error>
    requires
        destination@ == BUS_NAME@,
        path@ == OBJECT_PATH@,
        interface@ == INTERFACE@,
{
    Proxy::new(conn, destination, path, interface)
}

/// `zbus::blocking::Proxy::call` of a method without arguments that answers
/// a string; the answer comes from another process, so nothing is stated of
/// it. The only method the library calls this way is the extension's
/// `Ping`, and the `requires` holds every call to it.
#[verifier::external_body]
fn call_for_string(proxy: &Proxy<'_>, method: &'static str) -> Result<String, zbus::Error>
    requires
        method@ == "Ping"@,
{
    proxy.call::<_, _, String>(method, &())
}

/// The `Display` text of a D-Bus error; nothing is stated of it.
#[verifier::external_body]
fn dbus_error_text(e: &zbus::Error) -> String {
    format!("{}", e)
}

/// Connects to the session bus, builds a proxy for the extension's object
/// (`BUS_NAME`, `OBJECT_PATH`, `INTERFACE`) and calls its `Ping`; on success
/// gives the connection and the version the extension reports. `Ok` comes
/// when all three steps succeed, which the bus decides; each failure is
/// reported with the stage it happened at.
pub fn connect_and_ping() -> (r: Result<(Connection, String), String>)
    ensures
        r matches Err(m) ==> exists|stage: OverlayCheckFailure, t: Seq<char>|
            m@ == failure_message_spec(stage, t),
{
    let conn = match session_bus() {
        Ok(c) => c,
        Err(e) => {
            let t = dbus_error_text(&e);
            return Err(overlay_failure_message(OverlayCheckFailure::Connect, t.as_str()));
        },
    };
    let version = {
        let proxy = match new_proxy(&conn, BUS_NAME, OBJECT_PATH, INTERFACE) {
            Ok(p) => p,
            Err(e) => {
                let t = dbus_error_text(&e);
                return Err(overlay_failure_message(OverlayCheckFailure::Proxy, t.as_str()));
            },
        };
        match call_for_string(&proxy, "Ping") {
            Ok(v) => v,
            Err(e) => {
                let t = dbus_error_text(&e);
                return Err(overlay_failure_message(OverlayCheckFailure::Ping, t.as_str()));
            },
        }
    };
    Ok((conn, version))
}

/// Whether the extension answers on the session bus; the error says where
/// reaching it failed.
pub fn check_overlay_available() -> (r: Result<(), String>)
    ensures
        r matches Err(m) ==> exists|stage: OverlayCheckFailure, t: Seq<char>|
            m@ == failure_message_spec(stage, t),
{
    match connect_and_ping() {
        Ok(_) => Ok(()),
        Err(m) => Err(m),
    }
}

} // verus!
