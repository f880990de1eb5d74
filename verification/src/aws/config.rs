//! The credential store: the profiles' key material in one file, the
//! automation parameters in another.

use crate::aws::ini_file::{ini_get, ini_parse, ini_parsed, ini_put, ini_sections, ini_write, ini_written, lookup};
use crate::aws::model::{AccessKey, AccessKeyView};
use ini::Ini;
use vstd::prelude::*;
use vstd::slice::slice_subrange;

verus! {

/// The section that holds the automation parameters.
pub open spec fn automation_section() -> Seq<char> {
    "automation"@
}

/// The key under which a profile keeps its access key's identifier.
pub open spec fn id_field() -> Seq<char> {
    "aws_access_key_id"@
}

/// The key under which a profile keeps its access key's secret.
pub open spec fn secret_field() -> Seq<char> {
    "aws_secret_access_key"@
}

/// Why the store could not be loaded or written out.
#[derive(Debug)]
pub enum ConfigError {
    /// One of the store's two files could not be had.
    StoreNotFound,
    /// One of the store's two files does not parse.
    StoreMalformed,
    /// A section lacks a field that the rotation needs.
    MissingField { section: String, field: String },
    /// The store could not be written out.
    StoreWriteFailed,
}

/// A `ConfigError`, its strings as sequences of characters.
pub enum ConfigErrorView {
    StoreNotFound,
    StoreMalformed,
    MissingField { section: Seq<char>, field: Seq<char> },
    StoreWriteFailed,
}

impl View for ConfigError {
    type V = ConfigErrorView;

    open spec fn view(&self) -> ConfigErrorView {
        match self {
            ConfigError::StoreNotFound => ConfigErrorView::StoreNotFound,
            ConfigError::StoreMalformed => ConfigErrorView::StoreMalformed,
            ConfigError::MissingField { section, field } => ConfigErrorView::MissingField {
                section: section@,
                field: field@,
            },
            ConfigError::StoreWriteFailed => ConfigErrorView::StoreWriteFailed,
        }
    }
}

impl Clone for ConfigError {
    fn clone(&self) -> (res: Self)
        ensures
            res@ == self@,
    {
        match self {
            ConfigError::StoreNotFound => ConfigError::StoreNotFound,
            ConfigError::StoreMalformed => ConfigError::StoreMalformed,
            ConfigError::MissingField { section, field } => ConfigError::MissingField {
                section: section.clone(),
                field: field.clone(),
            },
            ConfigError::StoreWriteFailed => ConfigError::StoreWriteFailed,
        }
    }
}

/// The store as the rotation sees it: what a lookup finds in each named
/// section of the credentials file, and the three automation parameters.
pub struct StoreView {
    pub sections: Map<Seq<char>, Map<Seq<char>, Seq<char>>>,
    pub profile: Seq<char>,
    pub username: Seq<char>,
    pub mfa_arn: Seq<char>,
}

impl StoreView {
    /// The profile that the automation parameters name has a section with
    /// both fields of its key.
    pub open spec fn well_formed(self) -> bool {
        &&& lookup(self.sections, self.profile, id_field()) is Some
        &&& lookup(self.sections, self.profile, secret_field()) is Some
    }

    /// The key that the store holds for its profile. The store does not
    /// know the key's status, date or owner.
    pub open spec fn active_key(self) -> AccessKeyView {
        AccessKeyView {
            access_key_id: self.sections[self.profile][id_field()],
            create_date: None,
            secret_access_key: self.sections[self.profile][secret_field()],
            status: Seq::empty(),
            user_name: Seq::empty(),
        }
    }

    /// The store once `key` has taken the place of the profile's key: the
    /// profile's two fields are overwritten and nothing else changes.
    pub open spec fn with_key(self, key: AccessKeyView) -> StoreView {
        StoreView {
            sections: self.sections.insert(
                self.profile,
                self.sections[self.profile].insert(id_field(), key.access_key_id).insert(
                    secret_field(),
                    key.secret_access_key,
                ),
            ),
            ..self
        }
    }
}

/// `bytes` without the byte order mark that a UTF-8 file may start with.
pub open spec fn without_mark(bytes: Seq<u8>) -> Seq<u8> {
    if bytes.len() >= 3 && bytes[0] == 0xef && bytes[1] == 0xbb && bytes[2] == 0xbf {
        bytes.skip(3)
    } else {
        bytes
    }
}

/// The sections of one of the store's files, given the file's bytes, or why
/// there are none.
pub open spec fn sections_of(contents: Option<Seq<u8>>) -> Result<
    Map<Seq<char>, Map<Seq<char>, Seq<char>>>,
    ConfigErrorView,
> {
    match contents {
        None => Err(ConfigErrorView::StoreNotFound),
        Some(bytes) => match ini_parsed(without_mark(bytes)) {
            None => Err(ConfigErrorView::StoreMalformed),
            Some(sections) => Ok(sections),
        },
    }
}

/// The field `field` of the section `section`, or the error that names
/// both.
pub open spec fn required(
    sections: Map<Seq<char>, Map<Seq<char>, Seq<char>>>,
    section: Seq<char>,
    field: Seq<char>,
) -> Result<Seq<char>, ConfigErrorView> {
    match lookup(sections, section, field) {
        Some(value) => Ok(value),
        None => Err(ConfigErrorView::MissingField { section, field }),
    }
}

/// The store that the two files make, or the first reason why they make
/// none. The credentials file is looked at first, then the automation
/// parameters in the order profile, user name, device, then the two
/// fields of the profile's key.
pub open spec fn loaded(credentials: Option<Seq<u8>>, config: Option<Seq<u8>>) -> Result<
    StoreView,
    ConfigErrorView,
> {
    match sections_of(credentials) {
        Err(error) => Err(error),
        Ok(sections) => match sections_of(config) {
            Err(error) => Err(error),
            Ok(parameters) => match required(parameters, automation_section(), "profile"@) {
                Err(error) => Err(error),
                Ok(profile) => match required(parameters, automation_section(), "username"@) {
                    Err(error) => Err(error),
                    Ok(username) => match required(parameters, automation_section(), "mfa_arn"@) {
                        Err(error) => Err(error),
                        Ok(mfa_arn) => match required(sections, profile, id_field()) {
                            Err(error) => Err(error),
                            Ok(_) => match required(sections, profile, secret_field()) {
                                Err(error) => Err(error),
                                Ok(_) => Ok(StoreView { sections, profile, username, mfa_arn }),
                            },
                        },
                    },
                },
            },
        },
    }
}

/// The credential store, loaded.
#[derive(Debug)]
pub struct AwsConfigurationManager {
    credentials_file: Ini,
    aws_profile: String,
    aws_username: String,
    aws_mfa_arn: String,
}

impl View for AwsConfigurationManager {
    type V = StoreView;

    closed spec fn view(&self) -> StoreView {
        StoreView {
            sections: ini_sections(self.credentials_file),
            profile: self.aws_profile@,
            username: self.aws_username@,
            mfa_arn: self.aws_mfa_arn@,
        }
    }
}

/// Parses one of the store's files.
fn read_file(contents: Option<&[u8]>) -> (res: Result<Ini, ConfigError>)
    ensures
        match res {
            Ok(file) => sections_of(bytes_of(contents)) == Ok::<_, ConfigErrorView>(
                ini_sections(file),
            ),
            Err(error) => sections_of(bytes_of(contents)) == Err::<
                Map<Seq<char>, Map<Seq<char>, Seq<char>>>,
                _,
            >(error@),
        },
{
    match contents {
        None => Err(ConfigError::StoreNotFound),
        Some(bytes) => {
            let marked = bytes.len() >= 3 && bytes[0] == 0xef && bytes[1] == 0xbb && bytes[2]
                == 0xbf;
            let text = if marked {
                slice_subrange(bytes, 3, bytes.len())
            } else {
                bytes
            };
            assert(text@ == without_mark(bytes@));
            match ini_parse(text) {
                Ok(file) => Ok(file),
                Err(_) => Err(ConfigError::StoreMalformed),
            }
        },
    }
}

/// The bytes behind an optional slice.
pub open spec fn bytes_of(contents: Option<&[u8]>) -> Option<Seq<u8>> {
    match contents {
        Some(bytes) => Some(bytes@),
        None => None,
    }
}

impl AwsConfigurationManager {
    /// The store is as `loaded` or `with_key` left it: the profile's key is
    /// there.
    pub open spec fn well_formed(&self) -> bool {
        self@.well_formed()
    }

    /// What the store's credentials file is written out as, or `None` where
    /// writing it out fails.
    pub closed spec fn written(&self) -> Option<Seq<u8>> {
        ini_written(self.credentials_file)
    }

    /// Loads the store from the contents of its two files: the credentials
    /// file, which holds a section for each profile, and the configuration
    /// file, which holds the automation parameters. `None` stands for a
    /// file that could not be read.
    pub fn new(credentials: Option<&[u8]>, config: Option<&[u8]>) -> (res: Result<
        Self,
        ConfigError,
    >)
        ensures
            match res {
                Ok(store) => loaded(bytes_of(credentials), bytes_of(config)) == Ok::<
                    _,
                    ConfigErrorView,
                >(store@) && store.well_formed(),
                Err(error) => loaded(bytes_of(credentials), bytes_of(config)) == Err::<
                    StoreView,
                    _,
                >(error@),
            },
    {
        let credentials_file = match read_file(credentials) {
            Ok(file) => file,
            Err(error) => return Err(error),
        };
        let configuration_file = match read_file(config) {
            Ok(file) => file,
            Err(error) => return Err(error),
        };
        let aws_profile = match Self::read_property(&configuration_file, "automation", "profile") {
            Ok(value) => value,
            Err(error) => return Err(error),
        };
        let aws_username = match Self::read_property(&configuration_file, "automation", "username") {
            Ok(value) => value,
            Err(error) => return Err(error),
        };
        let aws_mfa_arn = match Self::read_property(&configuration_file, "automation", "mfa_arn") {
            Ok(value) => value,
            Err(error) => return Err(error),
        };
        match Self::read_property(&credentials_file, aws_profile.as_str(), "aws_access_key_id") {
            Ok(_) => {},
            Err(error) => return Err(error),
        }
        match Self::read_property(&credentials_file, aws_profile.as_str(), "aws_secret_access_key") {
            Ok(_) => {},
            Err(error) => return Err(error),
        }
        Ok(Self { credentials_file, aws_profile, aws_username, aws_mfa_arn })
    }

    /// The profile whose key is rotated.
    pub fn aws_profile(&self) -> (res: &String)
        ensures
            res@ == self@.profile,
    {
        &self.aws_profile
    }

    /// The identity that owns the key.
    pub fn aws_username(&self) -> (res: &String)
        ensures
            res@ == self@.username,
    {
        &self.aws_username
    }

    /// The device whose one-time codes open a session.
    pub fn aws_mfa_arn(&self) -> (res: &String)
        ensures
            res@ == self@.mfa_arn,
    {
        &self.aws_mfa_arn
    }

    /// The key that the store holds for the profile.
    pub fn read_credentials_info(&self) -> (key: AccessKey)
        requires
            self.well_formed(),
        ensures
            key@ == self@.active_key(),
    {
        let access_key_id = ini_get(
            &self.credentials_file,
            self.aws_profile.as_str(),
            "aws_access_key_id",
        );
        let secret_access_key = ini_get(
            &self.credentials_file,
            self.aws_profile.as_str(),
            "aws_secret_access_key",
        );
        AccessKey {
            access_key_id: access_key_id.unwrap(),
            create_date: None,
            secret_access_key: secret_access_key.unwrap(),
            status: String::new(),
            user_name: String::new(),
        }
    }

    /// Puts `key` in the place of the profile's key and writes the store's
    /// credentials file out: the bytes returned are what is to replace the
    /// file. The store holds the new key whether or not it could be written
    /// out.
    pub fn write_credentials_info(&mut self, key: &AccessKey) -> (res: Result<Vec<u8>, ConfigError>)
        requires
            old(self).well_formed(),
        ensures
            final(self)@ == old(self)@.with_key(key@),
            final(self).well_formed(),
            match res {
                Ok(contents) => final(self).written() == Some(contents@),
                Err(error) => final(self).written() is None && error@
                    == ConfigErrorView::StoreWriteFailed,
            },
    {
        ini_put(
            &mut self.credentials_file,
            self.aws_profile.as_str(),
            "aws_access_key_id",
            key.access_key_id.as_str(),
        );
        ini_put(
            &mut self.credentials_file,
            self.aws_profile.as_str(),
            "aws_secret_access_key",
            key.secret_access_key.as_str(),
        );
        assert(self@.sections == old(self)@.with_key(key@).sections);
        match ini_write(&self.credentials_file) {
            Some(contents) => Ok(contents),
            None => Err(ConfigError::StoreWriteFailed),
        }
    }

    /// The field `key` of the section `section`, or the error that names
    /// both.
    fn read_property(file: &Ini, section: &str, key: &str) -> (res: Result<String, ConfigError>)
        ensures
            match res {
                Ok(value) => required(ini_sections(*file), section@, key@) == Ok::<
                    _,
                    ConfigErrorView,
                >(value@),
                Err(error) => required(ini_sections(*file), section@, key@) == Err::<
                    Seq<char>,
                    _,
                >(error@),
            },
    {
        match ini_get(file, section, key) {
            Some(value) => Ok(value),
            None => Err(
                ConfigError::MissingField {
                    section: section.to_owned(),
                    field: key.to_owned(),
                },
            ),
        }
    }
}

/// A store that loads holds, as its profile's key, exactly the identifier
/// and the secret that the credentials file has in the section of the
/// profile that the automation parameters name.
pub proof fn law_loaded_key_is_the_profiles(credentials: Seq<u8>, config: Seq<u8>)
    requires
        loaded(Some(credentials), Some(config)) is Ok,
    ensures
        ({
            let store = loaded(Some(credentials), Some(config))->Ok_0;
            let sections = ini_parsed(without_mark(credentials))->Some_0;
            let parameters = ini_parsed(without_mark(config))->Some_0;
            let profile = parameters[automation_section()]["profile"@];
            &&& store.well_formed()
            &&& store.profile == profile
            &&& store.active_key().access_key_id == sections[profile][id_field()]
            &&& store.active_key().secret_access_key == sections[profile][secret_field()]
        }),
{
}

/// Once a key is written into a store, the store holds that key's
/// identifier and secret, and every other field of every section is as it
/// was; writing the same key once more changes nothing.
pub proof fn law_written_key_is_held(store: StoreView, key: AccessKeyView)
    requires
        store.well_formed(),
    ensures
        store.with_key(key).well_formed(),
        store.with_key(key).with_key(key) == store.with_key(key),
        store.with_key(key).active_key().access_key_id == key.access_key_id,
        store.with_key(key).active_key().secret_access_key == key.secret_access_key,
        store.with_key(key).sections.dom() == store.sections.dom(),
        forall|section: Seq<char>, field: Seq<char>|
            !(section == store.profile && (field == id_field() || field == secret_field()))
                ==> lookup(store.with_key(key).sections, section, field) == #[trigger] lookup(
                store.sections,
                section,
                field,
            ),
{
    lemma_fields_differ();
    assert(store.with_key(key).sections.dom() =~= store.sections.dom());
    let once = store.with_key(key);
    assert(once.with_key(key).sections[store.profile] =~= once.sections[store.profile]);
    assert(once.with_key(key).sections =~= once.sections);
}

/// The two fields of a profile's key have different names.
proof fn lemma_fields_differ()
    ensures
        id_field() != secret_field(),
{
    reveal_strlit("aws_access_key_id");
    reveal_strlit("aws_secret_access_key");
    assert(id_field().len() != secret_field().len());
}

/// A key written into a loaded store is read back by a fresh load of what
/// was written out, provided that the file format keeps the store: the bytes
/// written out parse to the sections that the store held when it wrote
/// them.
pub proof fn law_written_key_is_read_back(
    credentials: Seq<u8>,
    config: Seq<u8>,
    key: AccessKeyView,
    contents: Seq<u8>,
)
    requires
        loaded(Some(credentials), Some(config)) is Ok,
    ensures
        ({
            let store = loaded(Some(credentials), Some(config))->Ok_0;
            ini_parsed(without_mark(contents)) == Some(store.with_key(key).sections) ==> {
                &&& loaded(Some(contents), Some(config)) == Ok::<_, ConfigErrorView>(
                    store.with_key(key),
                )
                &&& store.with_key(key).active_key().access_key_id == key.access_key_id
                &&& store.with_key(key).active_key().secret_access_key == key.secret_access_key
            }
        }),
{
    let store = loaded(Some(credentials), Some(config))->Ok_0;
    law_written_key_is_held(store, key);
}

/// Where both files parse and the automation section lacks one of its three
/// parameters, loading fails with the error that names the section and the
/// first parameter that is missing, and no store is returned.
pub proof fn law_missing_parameter_fails(credentials: Seq<u8>, config: Seq<u8>)
    requires
        ini_parsed(without_mark(credentials)) is Some,
        ini_parsed(without_mark(config)) is Some,
    ensures
        ({
            let parameters = ini_parsed(without_mark(config))->Some_0;
            let outcome = loaded(Some(credentials), Some(config));
            let missing = |field: Seq<char>|
                lookup(parameters, automation_section(), field) is None;
            let names = |field: Seq<char>|
                outcome == Err::<StoreView, _>(
                    ConfigErrorView::MissingField { section: automation_section(), field },
                );
            &&& missing("profile"@) ==> names("profile"@)
            &&& !missing("profile"@) && missing("username"@) ==> names("username"@)
            &&& !missing("profile"@) && !missing("username"@) && missing("mfa_arn"@) ==> names(
                "mfa_arn"@,
            )
        }),
{
}

} // verus!
