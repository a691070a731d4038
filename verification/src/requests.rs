//! The fixed words that are handed to devices and services, and those in which the user is asked.

use vstd::prelude::*;

verus! {

/// The name under which this program connects to a device, and pairs with it.
pub const HOST_NAME: &'static str = "iloader";

/// The code for a remote pairing. The device asks its user instead.
pub const PAIRING_PIN: &'static str = "000000";

/// The key of a device's name.
pub const DEVICE_NAME_KEY: &'static str = "DeviceName";

/// The key of a device's iOS version.
pub const VERSION_KEY: &'static str = "ProductVersion";

/// The key of the switch for debugging over WiFi.
pub const WIFI_DEBUGGING_KEY: &'static str = "EnableWifiDebugging";

/// The domain of the switch for debugging over WiFi.
pub const WIFI_DEBUGGING_DOMAIN: &'static str = "com.apple.mobile.wireless_lockdown";

/// The sort of apps that are looked through: those that the user installed.
pub const USER_APPS: &'static str = "User";

/// The service through which a device is paired.
pub const TUNNEL_SERVICE: &'static str = "com.apple.internal.dt.coredevice.untrusted.tunnelservice";

/// What the user is asked for the verification code.
pub const CODE_PROMPT: &'static str = "Código 2FA: ";

/// What the user is asked when certificates have to be revoked.
pub const REVOCATION_PROMPT: &'static str = "\nNúmeros a revocar (coma, Enter para cancelar): ";

/// The fixed words, each as devices, services and the user know it.
pub proof fn law_the_words_are_fixed()
    ensures
        HOST_NAME@ == "iloader"@,
        PAIRING_PIN@ == "000000"@,
        DEVICE_NAME_KEY@ == "DeviceName"@,
        VERSION_KEY@ == "ProductVersion"@,
        WIFI_DEBUGGING_KEY@ == "EnableWifiDebugging"@,
        WIFI_DEBUGGING_DOMAIN@ == "com.apple.mobile.wireless_lockdown"@,
        USER_APPS@ == "User"@,
        TUNNEL_SERVICE@ == "com.apple.internal.dt.coredevice.untrusted.tunnelservice"@,
        CODE_PROMPT@ == "Código 2FA: "@,
        REVOCATION_PROMPT@ == "\nNúmeros a revocar (coma, Enter para cancelar): "@,
{
}

} // verus!
