//! Security classification of access points and the credentials each class
//! calls for.
use vstd::prelude::*;
use vstd::string::*;

verus! {

/// Security capability bits of an access point, as the network service
/// reports them; several may be set at once.
pub const SECURITY_WEP: u32 = 1;

pub const SECURITY_WPA: u32 = 2;

pub const SECURITY_WPA2: u32 = 4;

pub const SECURITY_ENTERPRISE: u32 = 8;

pub open spec fn has_flag(bits: u32, flag: u32) -> bool {
    bits & flag == flag
}

/// The security class of an access point, strongest first.
#[derive(Debug, Clone, Copy, PartialEq, Eq, Structural)]
pub enum SecurityClass {
    Enterprise,
    Wpa,
    Wep,
    Open,
}

/// Enterprise wins over WPA2 and WPA, which win over WEP; with none of
/// them the network is open.
pub open spec fn classify(bits: u32) -> SecurityClass {
    if has_flag(bits, SECURITY_ENTERPRISE) {
        SecurityClass::Enterprise
    } else if has_flag(bits, SECURITY_WPA2) || has_flag(bits, SECURITY_WPA) {
        SecurityClass::Wpa
    } else if has_flag(bits, SECURITY_WEP) {
        SecurityClass::Wep
    } else {
        SecurityClass::Open
    }
}

pub fn classify_security(bits: u32) -> (r: SecurityClass)
    ensures
        r == classify(bits),
{
    if bits & SECURITY_ENTERPRISE == SECURITY_ENTERPRISE {
        SecurityClass::Enterprise
    } else if bits & SECURITY_WPA2 == SECURITY_WPA2 || bits & SECURITY_WPA == SECURITY_WPA {
        SecurityClass::Wpa
    } else if bits & SECURITY_WEP == SECURITY_WEP {
        SecurityClass::Wep
    } else {
        SecurityClass::Open
    }
}

/// The name of a security class as it is shown to users.
pub open spec fn class_name(c: SecurityClass) -> Seq<char> {
    match c {
        SecurityClass::Enterprise => seq!['e', 'n', 't', 'e', 'r', 'p', 'r', 'i', 's', 'e'],
        SecurityClass::Wpa => seq!['w', 'p', 'a'],
        SecurityClass::Wep => seq!['w', 'e', 'p'],
        SecurityClass::Open => seq!['n', 'o', 'n', 'e'],
    }
}

impl SecurityClass {
    /// `enterprise`, `wpa`, `wep` or `none`.
    pub fn name(&self) -> (r: &'static str)
        ensures
            r@ == class_name(*self),
    {
        proof {
            reveal_strlit("enterprise");
            reveal_strlit("wpa");
            reveal_strlit("wep");
            reveal_strlit("none");
        }
        match self {
            SecurityClass::Enterprise => {
                assert("enterprise"@ =~= class_name(*self));
                "enterprise"
            },
            SecurityClass::Wpa => {
                assert("wpa"@ =~= class_name(*self));
                "wpa"
            },
            SecurityClass::Wep => {
                assert("wep"@ =~= class_name(*self));
                "wep"
            },
            SecurityClass::Open => {
                assert("none"@ =~= class_name(*self));
                "none"
            },
        }
    }
}

/// What a connection attempt hands to the network service.
#[derive(Debug, Clone, PartialEq, Eq)]
pub enum Credentials {
    Open,
    Wep { passphrase: String },
    Wpa { passphrase: String },
    Enterprise { identity: String, passphrase: String },
}

/// The value of [`Credentials`], with its strings as character sequences.
pub enum CredentialsView {
    Open,
    Wep { passphrase: Seq<char> },
    Wpa { passphrase: Seq<char> },
    Enterprise { identity: Seq<char>, passphrase: Seq<char> },
}

impl View for Credentials {
    type V = CredentialsView;

    open spec fn view(&self) -> CredentialsView {
        match self {
            Credentials::Open => CredentialsView::Open,
            Credentials::Wep { passphrase } => CredentialsView::Wep { passphrase: passphrase@ },
            Credentials::Wpa { passphrase } => CredentialsView::Wpa { passphrase: passphrase@ },
            Credentials::Enterprise { identity, passphrase } => CredentialsView::Enterprise {
                identity: identity@,
                passphrase: passphrase@,
            },
        }
    }
}

/// The credentials for a network of the given security bits.
pub open spec fn credentials_for(bits: u32, identity: Seq<char>, passphrase: Seq<char>) -> CredentialsView {
    match classify(bits) {
        SecurityClass::Enterprise => CredentialsView::Enterprise { identity, passphrase },
        SecurityClass::Wpa => CredentialsView::Wpa { passphrase },
        SecurityClass::Wep => CredentialsView::Wep { passphrase },
        SecurityClass::Open => CredentialsView::Open,
    }
}

/// Builds the credentials for a network of the given security bits.
pub fn resolve_credentials(security: u32, identity: &str, passphrase: &str) -> (r: Credentials)
    ensures
        r@ == credentials_for(security, identity@, passphrase@),
{
    match classify_security(security) {
        SecurityClass::Enterprise => Credentials::Enterprise {
            identity: identity.to_owned(),
            passphrase: passphrase.to_owned(),
        },
        SecurityClass::Wpa => Credentials::Wpa { passphrase: passphrase.to_owned() },
        SecurityClass::Wep => Credentials::Wep { passphrase: passphrase.to_owned() },
        SecurityClass::Open => Credentials::Open,
    }
}

/// Every combination of security bits gets credentials of one shape:
/// enterprise networks take the identity and the passphrase, even an empty
/// identity; WPA and WPA2 networks, and then WEP networks, take the
/// passphrase alone; any other network takes nothing.
pub proof fn lemma_credentials_shape(bits: u32, identity: Seq<char>, passphrase: Seq<char>)
    ensures
        has_flag(bits, SECURITY_ENTERPRISE) ==> credentials_for(bits, identity, passphrase)
            == (CredentialsView::Enterprise { identity, passphrase }),
        !has_flag(bits, SECURITY_ENTERPRISE) && (has_flag(bits, SECURITY_WPA2) || has_flag(
            bits,
            SECURITY_WPA,
        )) ==> credentials_for(bits, identity, passphrase) == (CredentialsView::Wpa { passphrase }),
        !has_flag(bits, SECURITY_ENTERPRISE) && !has_flag(bits, SECURITY_WPA2) && !has_flag(
            bits,
            SECURITY_WPA,
        ) && has_flag(bits, SECURITY_WEP) ==> credentials_for(bits, identity, passphrase) == (
        CredentialsView::Wep { passphrase }),
        bits & 15 == 0 ==> credentials_for(bits, identity, passphrase) == CredentialsView::Open,
{
    assert(bits & 15 == 0 ==> bits & 8 != 8 && bits & 4 != 4 && bits & 2 != 2 && bits & 1 != 1)
        by (bit_vector);
}

} // verus!
