//! Errors of a tunnel and how the clients word them.

use https_proxy::async_impl::proxy::CreateTunnelErr;

#[test]
fn ut_tunnel_error_debug_assert() {
    assert_eq!(
        CreateTunnelErr::ProxyHeadersTooLong.fmt(),
        "Proxy headers too long for tunnel"
    );
    assert_eq!(
        CreateTunnelErr::ProxyAuthenticationRequired.fmt(),
        "Proxy authentication required"
    );
    assert_eq!(CreateTunnelErr::Unsuccessful.fmt(), "Unsuccessful tunnel");
    assert_eq!(
        format!("{}", CreateTunnelErr::ProxyHeadersTooLong.fmt()),
        "Proxy headers too long for tunnel"
    );
}
