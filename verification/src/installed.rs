//! Extraction of a version identity from an installed bundle's metadata:
//! the decision logic over the fields that the two metadata files carry,
//! and the classification of a candidate path as an installation, a
//! non-installation, or a read failure.

use vstd::prelude::*;
use crate::error::AstudiosError;
use crate::model::{AndroidStudioVersion, InstalledAndroidStudio, VersionView};
use crate::search::{first_index_where, lemma_first_index_where, lemma_first_index_where_unique};
use crate::text::{
    contains_seq, ends_with_seq, file_name_component, file_name_in_path, str_contains,
    str_ends_with,
};

verus! {

/// The string fields that the platform metadata file (property list) of a
/// candidate bundle carries; `None` where a key is absent.
pub struct PlistFields {
    /// CFBundleShortVersionString.
    pub short_version: Option<String>,
    /// CFBundleVersion.
    pub build_version: Option<String>,
    /// CFBundleIdentifier.
    pub bundle_identifier: Option<String>,
}

/// Mathematical image of `PlistFields`.
pub struct PlistFieldsView {
    pub short_version: Option<Seq<char>>,
    pub build_version: Option<Seq<char>>,
    pub bundle_identifier: Option<Seq<char>>,
}

impl View for PlistFields {
    type V = PlistFieldsView;

    open spec fn view(&self) -> PlistFieldsView {
        PlistFieldsView {
            short_version: crate::model::option_str_view(self.short_version),
            build_version: crate::model::option_str_view(self.build_version),
            bundle_identifier: crate::model::option_str_view(self.bundle_identifier),
        }
    }
}

/// The string fields that the product metadata file (JSON) of a candidate
/// bundle carries; `None` where a key is absent.
pub struct ProductFields {
    /// Product display name.
    pub name: Option<String>,
    /// Version string, e.g. "AI-251.26094.121.2513.14007798".
    pub version: Option<String>,
    /// Build number string.
    pub build_number: Option<String>,
}

/// Mathematical image of `ProductFields`.
pub struct ProductFieldsView {
    pub name: Option<Seq<char>>,
    pub version: Option<Seq<char>>,
    pub build_number: Option<Seq<char>>,
}

impl View for ProductFields {
    type V = ProductFieldsView;

    open spec fn view(&self) -> ProductFieldsView {
        ProductFieldsView {
            name: crate::model::option_str_view(self.name),
            version: crate::model::option_str_view(self.version),
            build_number: crate::model::option_str_view(self.build_number),
        }
    }
}

/// Everything that a directory scan observed about one candidate bundle
/// path: whether the path exists, and the fields of its two metadata files,
/// or the description of why one of them could not be read or parsed.
pub struct BundleProbe {
    /// The candidate bundle path.
    pub path: String,
    /// Whether the path exists on disk.
    pub exists: bool,
    /// The platform metadata fields, or why the file was unreadable.
    pub plist: Result<PlistFields, String>,
    /// The product metadata fields, or why the file was unreadable.
    pub product: Result<ProductFields, String>,
}

/// Mathematical image of a `BundleProbe`.
pub struct BundleProbeView {
    pub path: Seq<char>,
    pub exists: bool,
    pub plist: Result<PlistFieldsView, Seq<char>>,
    pub product: Result<ProductFieldsView, Seq<char>>,
}

impl View for BundleProbe {
    type V = BundleProbeView;

    open spec fn view(&self) -> BundleProbeView {
        BundleProbeView {
            path: self.path@,
            exists: self.exists,
            plist: match self.plist {
                Result::Ok(f) => Result::Ok(f@),
                Result::Err(m) => Result::Err(m@),
            },
            product: match self.product {
                Result::Ok(f) => Result::Ok(f@),
                Result::Err(m) => Result::Err(m@),
            },
        }
    }
}

/// A file name that names an application bundle: it ends in ".app" and has
/// a stem before the dot.
pub open spec fn is_bundle_name(n: Seq<char>) -> bool {
    n.len() > 4 && ends_with_seq(n, ".app"@)
}

/// The bundle identifier to test, an absent field reading as empty.
pub open spec fn bundle_id_or_empty(f: PlistFieldsView) -> Seq<char> {
    match f.bundle_identifier {
        Option::Some(b) => b,
        Option::None => ""@,
    }
}

/// The error text of `parse_info_plist` when a required field is absent or
/// the bundle identifier is foreign.
pub open spec fn plist_error_message(f: PlistFieldsView) -> Seq<char> {
    if f.short_version is None {
        "CFBundleShortVersionString not found"@
    } else if f.build_version is None {
        "CFBundleVersion not found"@
    } else {
        "Not an Android Studio application"@
    }
}

/// Whether the platform metadata fields are complete and identify this
/// product family.
pub open spec fn plist_fields_ok(f: PlistFieldsView) -> bool {
    &&& f.short_version is Some
    &&& f.build_version is Some
    &&& contains_seq(bundle_id_or_empty(f), "android.studio"@)
}

/// A `-` character, the separator in front of a build number.
pub open spec fn dash_pred() -> spec_fn(char) -> bool {
    |c: char| c == '-'
}

/// The product code embedded in a version string: what stands before the
/// first `-`, or "AI" when there is no separator.
pub open spec fn product_code_of(v: Seq<char>) -> Seq<char> {
    match first_index_where(v, dash_pred()) {
        Option::Some(i) => v.take(i),
        Option::None => "AI"@,
    }
}

/// The product name of the product metadata fields, defaulting to
/// "Android Studio" where absent.
pub open spec fn product_name_of(f: ProductFieldsView) -> Seq<char> {
    match f.name {
        Option::Some(n) => n,
        Option::None => "Android Studio"@,
    }
}

/// The build number of the product metadata fields, defaulting to the
/// version string where absent.
pub open spec fn build_number_of(f: ProductFieldsView) -> Seq<char> {
    match f.build_number {
        Option::Some(b) => b,
        Option::None => f.version->Some_0,
    }
}

/// The version identity that complete metadata fields describe.
pub open spec fn version_of_fields(p: PlistFieldsView, f: ProductFieldsView) -> VersionView {
    VersionView {
        short_version: p.short_version->Some_0,
        build_version: p.build_version->Some_0,
        product_code: product_code_of(f.version->Some_0),
        build_number: build_number_of(f),
        product_name: product_name_of(f),
    }
}

/// What reading a candidate bundle must produce: a normal negative result,
/// a hard failure with its message, or the extracted version identity.
pub enum ReadOutcome {
    /// The candidate is not an installation of this product; a normal
    /// negative result during a scan.
    NotAnInstallation,
    /// A metadata file was unreadable or incomplete.
    Failure(Seq<char>),
    /// A valid installation with this version identity.
    Installed(VersionView),
}

/// The outcome that `InstalledVersionReader::try_read` owes for a probe:
/// a missing path or a foreign name is a negative result; an unreadable or
/// incomplete platform metadata file is a failure; a foreign bundle
/// identifier is a negative result; an unreadable product metadata file or
/// one without a version is a failure; anything else is an installation.
pub open spec fn try_read_spec(p: BundleProbeView) -> ReadOutcome {
    if !p.exists || !is_bundle_name(file_name_in_path(p.path)) {
        ReadOutcome::NotAnInstallation
    } else if p.plist is Err {
        ReadOutcome::Failure(p.plist->Err_0)
    } else if p.plist->Ok_0.short_version is None || p.plist->Ok_0.build_version is None {
        ReadOutcome::Failure(plist_error_message(p.plist->Ok_0))
    } else if !contains_seq(bundle_id_or_empty(p.plist->Ok_0), "android.studio"@) {
        ReadOutcome::NotAnInstallation
    } else if p.product is Err {
        ReadOutcome::Failure(p.product->Err_0)
    } else if p.product->Ok_0.version is None {
        ReadOutcome::Failure("Version not found in product-info.json"@)
    } else {
        ReadOutcome::Installed(version_of_fields(p.plist->Ok_0, p.product->Ok_0))
    }
}

/// Extract the product code from a version string: the prefix before the
/// first `-`, or "AI" when no separator is present.
pub fn extract_product_code(version: &str) -> (r: String)
    ensures
        r@ == product_code_of(version@),
{
    let l = version.unicode_len();
    let mut i: usize = 0;
    while i < l
        invariant
            i <= l,
            l == version@.len(),
            forall|j: int| 0 <= j < i ==> !dash_pred()(version@[j]),
        decreases l - i,
    {
        if version.get_char(i) == '-' {
            proof {
                lemma_first_index_where_unique(version@, dash_pred(), i as int);
            }
            return version.substring_char(0, i).to_owned();
        }
        i += 1;
    }
    proof {
        lemma_first_index_where(version@, dash_pred());
    }
    String::from_str("AI")
}

/// Extract the required fields of the platform metadata file: the short
/// version and the build version, after checking that the bundle identifier
/// names this product family.
pub fn parse_info_plist(fields: &PlistFields) -> (r: Result<(String, String), AstudiosError>)
    ensures
        match r {
            Result::Ok(pair) => {
                &&& plist_fields_ok(fields@)
                &&& pair.0@ == fields@.short_version->Some_0
                &&& pair.1@ == fields@.build_version->Some_0
            },
            Result::Err(e) => {
                &&& !plist_fields_ok(fields@)
                &&& e matches AstudiosError::General(m) && m@ == plist_error_message(fields@)
            },
        },
{
    let short_version = match &fields.short_version {
        Option::Some(s) => s.clone(),
        Option::None => {
            return Err(
                AstudiosError::General(String::from_str("CFBundleShortVersionString not found")),
            );
        },
    };
    let build_version = match &fields.build_version {
        Option::Some(s) => s.clone(),
        Option::None => {
            return Err(AstudiosError::General(String::from_str("CFBundleVersion not found")));
        },
    };
    let bundle_id: &str = match &fields.bundle_identifier {
        Option::Some(s) => s.as_str(),
        Option::None => "",
    };
    if !str_contains(bundle_id, "android.studio") {
        return Err(AstudiosError::General(String::from_str("Not an Android Studio application")));
    }
    Ok((short_version, build_version))
}

/// Extract the fields of the product metadata file: the product name
/// (defaulting to "Android Studio"), the product code derived from the
/// version string, and the build number (defaulting to the version string).
pub fn parse_product_info(fields: &ProductFields) -> (r: Result<
    (String, String, String),
    AstudiosError,
>)
    ensures
        match r {
            Result::Ok(t) => {
                &&& fields@.version is Some
                &&& t.0@ == product_name_of(fields@)
                &&& t.1@ == product_code_of(fields@.version->Some_0)
                &&& t.2@ == build_number_of(fields@)
            },
            Result::Err(e) => {
                &&& fields@.version is None
                &&& e matches AstudiosError::General(m) && m@
                    == "Version not found in product-info.json"@
            },
        },
{
    let version: &String = match &fields.version {
        Option::Some(v) => v,
        Option::None => {
            return Err(
                AstudiosError::General(String::from_str("Version not found in product-info.json")),
            );
        },
    };
    let product_name = match &fields.name {
        Option::Some(n) => n.clone(),
        Option::None => String::from_str("Android Studio"),
    };
    let build_number = match &fields.build_number {
        Option::Some(b) => b.clone(),
        Option::None => version.clone(),
    };
    let product_code = extract_product_code(version.as_str());
    Ok((product_name, product_code, build_number))
}

/// Combine the fields of both metadata files into a version identity.
pub fn parse_version_info(plist: &PlistFields, product: &ProductFields) -> (r: Result<
    AndroidStudioVersion,
    AstudiosError,
>)
    ensures
        match r {
            Result::Ok(v) => {
                &&& plist_fields_ok(plist@)
                &&& product@.version is Some
                &&& v@ == version_of_fields(plist@, product@)
            },
            Result::Err(e) => {
                &&& !(plist_fields_ok(plist@) && product@.version is Some)
                &&& e matches AstudiosError::General(m) && m@ == (if !plist_fields_ok(plist@) {
                    plist_error_message(plist@)
                } else {
                    "Version not found in product-info.json"@
                })
            },
        },
{
    let (short_version, build_version) = match parse_info_plist(plist) {
        Result::Ok(pair) => pair,
        Result::Err(e) => {
            return Err(e);
        },
    };
    let (product_name, product_code, build_number) = match parse_product_info(product) {
        Result::Ok(t) => t,
        Result::Err(e) => {
            return Err(e);
        },
    };
    Ok(
        AndroidStudioVersion::new(
            short_version,
            build_version,
            product_code,
            build_number,
            product_name,
        ),
    )
}

/// Reads the version identity of a candidate installation from what a scan
/// observed about it.
pub struct InstalledVersionReader;

impl InstalledVersionReader {
    /// Classify a candidate bundle: `Ok(None)` for a normal negative
    /// result, `Err` when a metadata file is unreadable or incomplete, and
    /// `Ok(Some(..))` for a valid installation.
    pub fn try_read(probe: &BundleProbe) -> (r: Result<
        Option<InstalledAndroidStudio>,
        AstudiosError,
    >)
        ensures
            match r {
                Result::Ok(opt) => match opt {
                    Option::None => try_read_spec(probe@) is NotAnInstallation,
                    Option::Some(inst) => {
                        &&& try_read_spec(probe@) matches ReadOutcome::Installed(v) && inst@.version
                            == v
                        &&& inst@.path == probe@.path
                    },
                },
                Result::Err(e) => {
                    try_read_spec(probe@) matches ReadOutcome::Failure(m) && e matches
                        AstudiosError::General(em) && em@ == m
                },
            },
    {
        if !probe.exists {
            return Ok(None);
        }
        let name = file_name_component(probe.path.as_str());
        if !(name.unicode_len() > 4 && str_ends_with(name, ".app")) {
            return Ok(None);
        }
        let plist = match &probe.plist {
            Result::Ok(f) => f,
            Result::Err(m) => {
                return Err(AstudiosError::General(m.clone()));
            },
        };
        if plist.short_version.is_none() {
            return Err(
                AstudiosError::General(String::from_str("CFBundleShortVersionString not found")),
            );
        }
        if plist.build_version.is_none() {
            return Err(AstudiosError::General(String::from_str("CFBundleVersion not found")));
        }
        let bundle_id: &str = match &plist.bundle_identifier {
            Option::Some(s) => s.as_str(),
            Option::None => "",
        };
        if !str_contains(bundle_id, "android.studio") {
            return Ok(None);
        }
        let product = match &probe.product {
            Result::Ok(f) => f,
            Result::Err(m) => {
                return Err(AstudiosError::General(m.clone()));
            },
        };
        if product.version.is_none() {
            return Err(
                AstudiosError::General(String::from_str("Version not found in product-info.json")),
            );
        }
        let version = match parse_version_info(plist, product) {
            Result::Ok(v) => v,
            Result::Err(e) => {
                return Err(e);
            },
        };
        Ok(Some(InstalledAndroidStudio { path: probe.path.clone(), version }))
    }
}

impl InstalledAndroidStudio {
    /// Read a candidate bundle, treating a metadata failure as a normal
    /// negative result: only a complete, readable installation of this
    /// product comes back as `Some`.
    pub fn new(probe: &BundleProbe) -> (r: Result<
        Option<InstalledAndroidStudio>,
        AstudiosError,
    >)
        ensures
            r is Ok,
            match r->Ok_0 {
                Option::None => !(try_read_spec(probe@) is Installed),
                Option::Some(inst) => {
                    &&& try_read_spec(probe@) matches ReadOutcome::Installed(v) && inst@.version
                        == v
                    &&& inst@.path == probe@.path
                },
            },
    {
        match InstalledVersionReader::try_read(probe) {
            Result::Ok(opt) => Ok(opt),
            Result::Err(_) => Ok(None),
        }
    }
}

} // verus!
