//! Credentials in the system's asset store.

use crate::text::joined;
use crate::text::utf8_bytes;
use crate::text::utf8_error_text;
use crate::text::utf8_text;
use vstd::prelude::*;
use vstd::string::*;
use vstd::utf8::decode_utf8;
use vstd::utf8::encode_utf8;
use vstd::utf8::encode_utf8_decode_utf8;
use vstd::utf8::encode_utf8_valid_utf8;
use vstd::utf8::valid_utf8;

verus! {

/// What an attribute of an asset is.
#[derive(Clone, Copy, Debug, PartialEq, Eq, Structural)]
pub enum AssetTag {
    /// The name under which the asset is found.
    Alias,
    Secret,
    /// A label that is not encrypted. It holds the name of the user.
    DataLabelNormal1,
    Accessibility,
    ReturnType,
    /// Another attribute, by the store's number for it.
    Other(u32),
}

/// When an asset can be read.
#[derive(Clone, Copy, Debug, PartialEq, Eq, Structural)]
pub enum AssetAccessibility {
    DevicePoweredOn,
    /// Once the device was unlocked after it started.
    DeviceFirstUnlocked,
    DeviceUnlocked,
}

/// How much of an asset a query returns.
#[derive(Clone, Copy, Debug, PartialEq, Eq, Structural)]
pub enum AssetReturnType {
    All,
    Attributes,
}

/// The value of an attribute.
#[derive(Debug, PartialEq, Eq)]
pub enum AssetValue {
    Boolean(bool),
    Number(u32),
    Blob(Vec<u8>),
    Accessibility(AssetAccessibility),
    ReturnType(AssetReturnType),
}

/// An attribute of an asset.
#[derive(Debug, PartialEq, Eq)]
pub struct AssetAttr {
    pub tag: AssetTag,
    pub value: AssetValue,
}

/// What the value of an attribute holds.
pub enum AssetValueView {
    Boolean(bool),
    Number(u32),
    Blob(Seq<u8>),
    Accessibility(AssetAccessibility),
    ReturnType(AssetReturnType),
}

/// What an attribute holds.
pub struct AssetAttrView {
    pub tag: AssetTag,
    pub value: AssetValueView,
}

impl View for AssetAttr {
    type V = AssetAttrView;

    open spec fn view(&self) -> AssetAttrView {
        AssetAttrView {
            tag: self.tag,
            value: match self.value {
                AssetValue::Boolean(b) => AssetValueView::Boolean(b),
                AssetValue::Number(n) => AssetValueView::Number(n),
                AssetValue::Blob(bytes) => AssetValueView::Blob(bytes@),
                AssetValue::Accessibility(a) => AssetValueView::Accessibility(a),
                AssetValue::ReturnType(r) => AssetValueView::ReturnType(r),
            },
        }
    }
}

/// What a list of attributes holds.
pub open spec fn attr_views(attrs: Seq<AssetAttr>) -> Seq<AssetAttrView> {
    attrs.map_values(|attr: AssetAttr| attr@)
}

/// How the store answers.
#[derive(Clone, Copy, Debug, PartialEq, Eq, Structural)]
pub enum AssetResultCode {
    Success,
    NotFound,
    Duplicated,
    Failure,
}

/// An answer of the store, with the store's text for it.
#[derive(Debug, PartialEq, Eq)]
pub struct AssetOutcome {
    pub code: AssetResultCode,
    pub text: String,
}

/// Why an operation on credentials failed.
#[derive(Debug, PartialEq, Eq)]
pub enum CredentialError {
    /// The store refused, for this reason.
    Store { operation: String, reason: String },
    NoUsername,
    NoPassword,
    /// The name of the user is not UTF-8, for this reason.
    BadUsername(String),
}

impl CredentialError {
    /// The text of the error.
    pub open spec fn text(self) -> Seq<char> {
        match self {
            CredentialError::Store { operation, reason } => "AssetStore "@ + operation@
                + " failed: "@ + reason@,
            CredentialError::NoUsername => "AssetStore credential has no username"@,
            CredentialError::NoPassword => "AssetStore credential has no password"@,
            CredentialError::BadUsername(reason) => reason@,
        }
    }

    /// The text of the error.
    pub fn message(&self) -> (r: String)
        ensures
            r@ == self.text(),
    {
        match self {
            CredentialError::Store { operation, reason } => {
                let mut text = joined("AssetStore ", operation.as_str());
                text.append(" failed: ");
                text.append(reason.as_str());
                text
            },
            CredentialError::NoUsername => "AssetStore credential has no username".to_owned(),
            CredentialError::NoPassword => "AssetStore credential has no password".to_owned(),
            CredentialError::BadUsername(reason) => reason.as_str().to_owned(),
        }
    }

    /// Whether the error says that the store refused an operation.
    pub open spec fn is_refusal(self, operation: Seq<char>, reason: Seq<char>) -> bool {
        self matches CredentialError::Store { operation: o, reason: r } && o@ == operation && r@
            == reason
    }
}

/// An attribute that holds bytes.
pub open spec fn blob(tag: AssetTag, bytes: Seq<u8>) -> AssetAttrView {
    AssetAttrView { tag, value: AssetValueView::Blob(bytes) }
}

/// The attribute by which an asset is found.
pub open spec fn alias(name: Seq<char>) -> AssetAttrView {
    blob(AssetTag::Alias, encode_utf8(name))
}

/// What of a credential can change.
pub open spec fn changing_attrs(username: Seq<char>, password: Seq<u8>) -> Seq<AssetAttrView> {
    seq![
        blob(AssetTag::Secret, password),
        blob(AssetTag::DataLabelNormal1, encode_utf8(username)),
    ]
}

/// A new credential.
pub open spec fn new_attrs(name: Seq<char>, username: Seq<char>, password: Seq<u8>) -> Seq<
    AssetAttrView,
> {
    seq![
        alias(name),
        blob(AssetTag::Secret, password),
        blob(AssetTag::DataLabelNormal1, encode_utf8(username)),
        AssetAttrView {
            tag: AssetTag::Accessibility,
            value: AssetValueView::Accessibility(AssetAccessibility::DeviceFirstUnlocked),
        },
    ]
}

/// A question for the whole of a credential.
pub open spec fn query_attrs(name: Seq<char>) -> Seq<AssetAttrView> {
    seq![
        alias(name),
        AssetAttrView {
            tag: AssetTag::ReturnType,
            value: AssetValueView::ReturnType(AssetReturnType::All),
        },
    ]
}

/// The bytes of the first attribute with a tag that holds any.
pub open spec fn blob_of(attrs: Seq<AssetAttrView>, tag: AssetTag) -> Option<Seq<u8>>
    decreases attrs.len(),
{
    if attrs.len() == 0 {
        None
    } else {
        match attrs[0].value {
            AssetValueView::Blob(bytes) => if attrs[0].tag == tag {
                Some(bytes)
            } else {
                blob_of(attrs.skip(1), tag)
            },
            _ => blob_of(attrs.skip(1), tag),
        }
    }
}

/// Copies bytes.
fn copied(bytes: &[u8]) -> (r: Vec<u8>)
    ensures
        r@ == bytes@,
{
    let mut copy: Vec<u8> = Vec::new();
    copy.extend_from_slice(bytes);
    proof {
        assert forall|i: int| 0 <= i < copy@.len() implies copy@[i] == bytes@[i] by {
            assert(cloned::<u8>(bytes@[i], copy@[i]));
        }
        assert(copy@ =~= bytes@);
    }
    copy
}

fn bytes(tag: AssetTag, value: Vec<u8>) -> (r: AssetAttr)
    ensures
        r@ == blob(tag, value@),
{
    AssetAttr { tag, value: AssetValue::Blob(value) }
}

fn alias_attr(name: &str) -> (r: AssetAttr)
    ensures
        r@ == alias(name@),
{
    bytes(AssetTag::Alias, utf8_bytes(name))
}

/// Takes an answer of the store to an operation.
pub fn check(operation: &str, outcome: AssetOutcome) -> (r: Result<(), CredentialError>)
    ensures
        r is Ok <==> outcome.code is Success,
        r is Err ==> r->Err_0.is_refusal(operation@, outcome.text@),
{
    match outcome.code {
        AssetResultCode::Success => Ok(()),
        _ => Err(
            CredentialError::Store { operation: operation.to_owned(), reason: outcome.text },
        ),
    }
}

/// The asset to add for a credential.
pub fn write(name: &str, username: &str, password: &[u8]) -> (r: Vec<AssetAttr>)
    ensures
        attr_views(r@) == new_attrs(name@, username@, password@),
{
    let mut attrs: Vec<AssetAttr> = Vec::new();
    attrs.push(alias_attr(name));
    attrs.push(bytes(AssetTag::Secret, copied(password)));
    attrs.push(bytes(AssetTag::DataLabelNormal1, utf8_bytes(username)));
    attrs.push(
        AssetAttr {
            tag: AssetTag::Accessibility,
            value: AssetValue::Accessibility(AssetAccessibility::DeviceFirstUnlocked),
        },
    );
    assert(attr_views(attrs@) =~= new_attrs(name@, username@, password@));
    attrs
}

/// What follows the store's answer to an added asset.
#[derive(Debug)]
pub enum WriteStep {
    Finished(Result<(), CredentialError>),
    /// The asset is there already: it has to be found and changed.
    Update { query: Vec<AssetAttr>, attrs: Vec<AssetAttr> },
}

/// How a write ends with the store's answer to an added asset, well or not; `None`
/// where it goes on.
pub open spec fn write_ends(code: AssetResultCode) -> Option<bool> {
    match code {
        AssetResultCode::Success => Some(true),
        AssetResultCode::Duplicated => None,
        AssetResultCode::NotFound | AssetResultCode::Failure => Some(false),
    }
}

/// Takes the store's answer to an added credential.
pub fn write_added(name: &str, username: &str, password: &[u8], outcome: AssetOutcome) -> (r:
    WriteStep)
    ensures
        r is Update <==> write_ends(outcome.code) is None,
        r matches WriteStep::Finished(result) ==> write_ends(outcome.code) == Some(result is Ok),
        r is Update <==> outcome.code is Duplicated,
        r matches WriteStep::Update { query, attrs } ==> attr_views(query@) == seq![alias(name@)]
            && attr_views(attrs@) == changing_attrs(username@, password@),
        r matches WriteStep::Finished(result) ==> {
            &&& result is Ok <==> outcome.code is Success
            &&& result is Err ==> result->Err_0.is_refusal("add"@, outcome.text@)
        },
{
    if outcome.code == AssetResultCode::Duplicated {
        let mut query: Vec<AssetAttr> = Vec::new();
        query.push(alias_attr(name));
        let mut attrs: Vec<AssetAttr> = Vec::new();
        attrs.push(bytes(AssetTag::Secret, copied(password)));
        attrs.push(bytes(AssetTag::DataLabelNormal1, utf8_bytes(username)));
        assert(attr_views(query@) =~= seq![alias(name@)]);
        assert(attr_views(attrs@) =~= changing_attrs(username@, password@));
        WriteStep::Update { query, attrs }
    } else {
        WriteStep::Finished(check("add", outcome))
    }
}

/// Takes the store's answer to a changed credential.
pub fn write_updated(outcome: AssetOutcome) -> (r: Result<(), CredentialError>)
    ensures
        r is Ok <==> outcome.code is Success,
        r is Err ==> r->Err_0.is_refusal("update"@, outcome.text@),
{
    check("update", outcome)
}

/// The question for a credential.
pub fn read(name: &str) -> (r: Vec<AssetAttr>)
    ensures
        attr_views(r@) == query_attrs(name@),
{
    let mut attrs: Vec<AssetAttr> = Vec::new();
    attrs.push(alias_attr(name));
    attrs.push(
        AssetAttr {
            tag: AssetTag::ReturnType,
            value: AssetValue::ReturnType(AssetReturnType::All),
        },
    );
    assert(attr_views(attrs@) =~= query_attrs(name@));
    attrs
}

fn find_blob(attrs: &Vec<AssetAttr>, tag: AssetTag) -> (r: Option<Vec<u8>>)
    ensures
        r is Some <==> blob_of(attr_views(attrs@), tag) is Some,
        r is Some ==> r->0@ == blob_of(attr_views(attrs@), tag)->0,
{
    let mut i: usize = 0;
    let ghost views = attr_views(attrs@);
    assert(views.skip(0) =~= views);
    while i < attrs.len()
        invariant
            i <= attrs@.len(),
            views == attr_views(attrs@),
            blob_of(views, tag) == blob_of(views.skip(i as int), tag),
        decreases attrs@.len() - i,
    {
        let attr = &attrs[i];
        assert(views.skip(i as int)[0] == attr@);
        assert(views.skip(i as int).skip(1) =~= views.skip(i + 1));
        if attr.tag == tag {
            if let AssetValue::Blob(found) = &attr.value {
                return Some(copied(found.as_slice()));
            }
        }
        i = i + 1;
    }
    None
}

/// What a found asset says of a credential.
pub open spec fn decoded(attrs: Seq<AssetAttrView>) -> Result<
    (Seq<char>, Seq<u8>),
    CredentialErrorView,
> {
    match (blob_of(attrs, AssetTag::DataLabelNormal1), blob_of(attrs, AssetTag::Secret)) {
        (None, _) => Err(CredentialErrorView::NoUsername),
        (Some(_), None) => Err(CredentialErrorView::NoPassword),
        (Some(username), Some(password)) => if valid_utf8(username) {
            Ok((decode_utf8(username), password))
        } else {
            Err(CredentialErrorView::BadUsername(utf8_error_text(username)))
        },
    }
}

/// What is wrong with a found asset.
pub enum CredentialErrorView {
    NoUsername,
    NoPassword,
    BadUsername(Seq<char>),
}

impl CredentialError {
    /// Whether the error says what is wrong with a found asset.
    pub open spec fn tells(self, wrong: CredentialErrorView) -> bool {
        match wrong {
            CredentialErrorView::NoUsername => self is NoUsername,
            CredentialErrorView::NoPassword => self is NoPassword,
            CredentialErrorView::BadUsername(reason) => self
                matches CredentialError::BadUsername(r) && r@ == reason,
        }
    }
}

/// Reads the credential in a found asset.
pub fn decode(attrs: &Vec<AssetAttr>) -> (r: Result<(String, Vec<u8>), CredentialError>)
    ensures
        r is Ok <==> decoded(attr_views(attrs@)) is Ok,
        r is Ok ==> r->Ok_0.0@ == decoded(attr_views(attrs@))->Ok_0.0,
        r is Ok ==> r->Ok_0.1@ == decoded(attr_views(attrs@))->Ok_0.1,
        r is Err ==> r->Err_0.tells(decoded(attr_views(attrs@))->Err_0),
{
    let username = match find_blob(attrs, AssetTag::DataLabelNormal1) {
        Some(username) => username,
        None => {
            return Err(CredentialError::NoUsername);
        },
    };
    let password = match find_blob(attrs, AssetTag::Secret) {
        Some(password) => password,
        None => {
            return Err(CredentialError::NoPassword);
        },
    };
    match utf8_text(username.as_slice()) {
        Ok(username) => Ok((username, password)),
        Err(reason) => Err(CredentialError::BadUsername(reason)),
    }
}

/// What was found, as values.
pub open spec fn found_view(found: Option<(String, Vec<u8>)>) -> Option<(Seq<char>, Seq<u8>)> {
    match found {
        Some(credential) => Some((credential.0@, credential.1@)),
        None => None,
    }
}

/// An answer to the question for a credential, as values.
pub open spec fn answer_view(answer: Result<Vec<Vec<AssetAttr>>, AssetOutcome>) -> Result<
    Seq<Seq<AssetAttrView>>,
    AssetResultCode,
> {
    match answer {
        Ok(found) => Ok(found@.map_values(|attrs: Vec<AssetAttr>| attr_views(attrs@))),
        Err(outcome) => Err(outcome.code),
    }
}

/// Why a credential could not be read.
pub enum ReadFailure {
    /// The store refused.
    Refused,
    /// Something is wrong with the asset.
    Wrong(CredentialErrorView),
}

/// What an answer to the question for a credential says: the first asset counts,
/// and no asset is no credential.
pub open spec fn read_as(answer: Result<Seq<Seq<AssetAttrView>>, AssetResultCode>) -> Result<
    Option<(Seq<char>, Seq<u8>)>,
    ReadFailure,
> {
    match answer {
        Ok(found) => if found.len() == 0 {
            Ok(None)
        } else {
            match decoded(found[0]) {
                Ok(credential) => Ok(Some(credential)),
                Err(wrong) => Err(ReadFailure::Wrong(wrong)),
            }
        },
        Err(code) => if code is NotFound {
            Ok(None)
        } else {
            Err(ReadFailure::Refused)
        },
    }
}

/// Takes the store's answer to the question for a credential: the assets that it
/// found, of which the first counts.
pub fn read_found(answer: Result<Vec<Vec<AssetAttr>>, AssetOutcome>) -> (r: Result<
    Option<(String, Vec<u8>)>,
    CredentialError,
>)
    ensures
        r is Ok <==> read_as(answer_view(answer)) is Ok,
        r is Ok ==> found_view(r->Ok_0) == read_as(answer_view(answer))->Ok_0,
        r is Err ==> match read_as(answer_view(answer))->Err_0 {
            ReadFailure::Refused => answer is Err && r->Err_0.is_refusal(
                "query"@,
                answer->Err_0.text@,
            ),
            ReadFailure::Wrong(wrong) => r->Err_0.tells(wrong),
        },
{
    match answer {
        Ok(found) => {
            if found.len() == 0 {
                return Ok(None);
            }
            match decode(&found[0]) {
                Ok(credential) => Ok(Some(credential)),
                Err(error) => Err(error),
            }
        },
        Err(outcome) => {
            if outcome.code == AssetResultCode::NotFound {
                Ok(None)
            } else {
                Err(
                    CredentialError::Store { operation: "query".to_owned(), reason: outcome.text },
                )
            }
        },
    }
}

/// The assets to remove for a credential.
pub fn delete(name: &str) -> (r: Vec<AssetAttr>)
    ensures
        attr_views(r@) == seq![alias(name@)],
{
    let mut attrs: Vec<AssetAttr> = Vec::new();
    attrs.push(alias_attr(name));
    assert(attr_views(attrs@) =~= seq![alias(name@)]);
    attrs
}

/// Whether a credential is gone with the store's answer to a removal.
pub open spec fn is_gone(code: AssetResultCode) -> bool {
    code is Success || code is NotFound
}

/// Takes the store's answer to a removal. A credential that is not there is gone
/// as well.
pub fn delete_done(outcome: AssetOutcome) -> (r: Result<(), CredentialError>)
    ensures
        r is Ok <==> is_gone(outcome.code),
        r is Ok <==> outcome.code is Success || outcome.code is NotFound,
        r is Err ==> r->Err_0.is_refusal("remove"@, outcome.text@),
{
    match outcome.code {
        AssetResultCode::Success | AssetResultCode::NotFound => Ok(()),
        _ => Err(
            CredentialError::Store { operation: "remove".to_owned(), reason: outcome.text },
        ),
    }
}

/// An asset that holds the secret and the label of a written credential, whatever
/// else it holds, reads as that credential: the name of the user and the password
/// come back as they were written. That goes for a new credential and for a
/// changed one.
pub proof fn law_written_credential_reads_back(
    name: Seq<char>,
    username: Seq<char>,
    password: Seq<u8>,
    found: Seq<AssetAttrView>,
)
    requires
        ({
            let written = new_attrs(name, username, password);
            let changed = changing_attrs(username, password);
            ||| (blob_of(found, AssetTag::Secret) == blob_of(written, AssetTag::Secret) && blob_of(
                found,
                AssetTag::DataLabelNormal1,
            ) == blob_of(written, AssetTag::DataLabelNormal1))
            ||| (blob_of(found, AssetTag::Secret) == blob_of(changed, AssetTag::Secret) && blob_of(
                found,
                AssetTag::DataLabelNormal1,
            ) == blob_of(changed, AssetTag::DataLabelNormal1))
        }),
    ensures
        decoded(found) == Ok::<(Seq<char>, Seq<u8>), CredentialErrorView>((username, password)),
{
    reveal_with_fuel(blob_of, 5);
    let written = new_attrs(name, username, password);
    let changed = changing_attrs(username, password);
    assert(written.skip(1)[0] == written[1]);
    assert(written.skip(1).skip(1)[0] == written[2]);
    assert(changed.skip(1)[0] == changed[1]);
    assert(blob_of(written, AssetTag::Secret) == Some(password));
    assert(blob_of(written, AssetTag::DataLabelNormal1) == Some(encode_utf8(username)));
    assert(blob_of(changed, AssetTag::Secret) == Some(password));
    assert(blob_of(changed, AssetTag::DataLabelNormal1) == Some(encode_utf8(username)));
    encode_utf8_valid_utf8(username);
    encode_utf8_decode_utf8(username);
}

/// The attributes that are added read as the credential themselves.
pub proof fn law_new_credential_reads_as_written(
    name: Seq<char>,
    username: Seq<char>,
    password: Seq<u8>,
)
    ensures
        decoded(new_attrs(name, username, password)) == Ok::<
            (Seq<char>, Seq<u8>),
            CredentialErrorView,
        >((username, password)),
{
    law_written_credential_reads_back(
        name,
        username,
        password,
        new_attrs(name, username, password),
    );
}

/// A credential is written, found, changed and removed under one and the same
/// name, and different names are different to the store.
pub proof fn law_names_tell_credentials_apart(a: Seq<char>, b: Seq<char>)
    ensures
        alias(a) == alias(b) <==> a == b,
        forall|username: Seq<char>, password: Seq<u8>|
            (#[trigger] new_attrs(a, username, password))[0] == alias(a),
        query_attrs(a)[0] == alias(a),
{
    encode_utf8_decode_utf8(a);
    encode_utf8_decode_utf8(b);
}

/// The answers to a write: to the added asset and, where there is one already, to
/// the changed one.
pub struct WriteAnswers {
    pub added: AssetResultCode,
    pub updated: AssetResultCode,
}

impl WriteAnswers {
    /// Whether the write succeeds with these answers: `write_added` ends well, or
    /// `write_updated` does.
    pub open spec fn succeed(self) -> bool {
        self.added is Success || (self.added is Duplicated && self.updated is Success)
    }
}

/// The name under which attributes ask for an asset or make one, as bytes.
pub open spec fn named(attrs: Seq<AssetAttrView>) -> Seq<u8> {
    blob_of(attrs, AssetTag::Alias)->0
}

/// Whether some attributes have none with a tag.
pub open spec fn lacks(attrs: Seq<AssetAttrView>, tag: AssetTag) -> bool {
    forall|i: int| 0 <= i < attrs.len() ==> (#[trigger] attrs[i]).tag != tag
}

/// An asset after some of its attributes changed: the new ones and, of the old
/// ones, those with other tags.
pub open spec fn changed(asset: Seq<AssetAttrView>, attrs: Seq<AssetAttrView>) -> Seq<
    AssetAttrView,
> {
    attrs + asset.filter(|attr: AssetAttrView| lacks(attrs, attr.tag))
}

/// Whether two assets have the same bytes under every tag, whatever the order of
/// their attributes.
pub open spec fn read_alike(a: Seq<AssetAttrView>, b: Seq<AssetAttrView>) -> bool {
    forall|tag: AssetTag| #[trigger] blob_of(a, tag) == blob_of(b, tag)
}

/// A store of assets: the attributes of each, by its name. A store may refuse
/// whatever it is asked, and a refusal changes nothing; otherwise it answers by
/// what it holds.
#[verifier::ext_equal]
pub struct StoreView {
    pub assets: Map<Seq<u8>, Seq<AssetAttrView>>,
}

impl StoreView {
    /// Whether there is an asset under the name in a question.
    pub open spec fn has(self, query: Seq<AssetAttrView>) -> bool {
        self.assets.contains_key(named(query))
    }

    /// Whether an added asset may be answered so: one that is there already is not
    /// added again.
    pub open spec fn may_answer_add(self, attrs: Seq<AssetAttrView>, code: AssetResultCode) -> bool {
        &&& code is Success ==> !self.has(attrs)
        &&& code is Duplicated ==> self.has(attrs)
    }

    /// The store after an asset was added with this answer.
    pub open spec fn after_add(
        self,
        attrs: Seq<AssetAttrView>,
        code: AssetResultCode,
    ) -> StoreView {
        if code is Success {
            StoreView { assets: self.assets.insert(named(attrs), attrs) }
        } else {
            self
        }
    }

    /// Whether a changed asset may be answered so: only one that is there changes.
    pub open spec fn may_answer_update(
        self,
        query: Seq<AssetAttrView>,
        code: AssetResultCode,
    ) -> bool {
        &&& code is Success ==> self.has(query)
        &&& code is NotFound ==> !self.has(query)
    }

    /// The store after an asset was changed with this answer.
    pub open spec fn after_update(
        self,
        query: Seq<AssetAttrView>,
        attrs: Seq<AssetAttrView>,
        code: AssetResultCode,
    ) -> StoreView {
        if code is Success {
            StoreView {
                assets: self.assets.insert(
                    named(query),
                    changed(self.assets[named(query)], attrs),
                ),
            }
        } else {
            self
        }
    }

    /// Whether a question may be answered so: with the one asset of that name, in
    /// whatever order its attributes come, or with none where there is none.
    pub open spec fn may_answer_query(
        self,
        query: Seq<AssetAttrView>,
        answer: Result<Seq<Seq<AssetAttrView>>, AssetResultCode>,
    ) -> bool {
        match answer {
            Ok(found) => if self.has(query) {
                found.len() == 1 && read_alike(found[0], self.assets[named(query)])
            } else {
                found.len() == 0
            },
            Err(code) => code is NotFound ==> !self.has(query),
        }
    }

    /// Whether a removal may be answered so.
    pub open spec fn may_answer_remove(
        self,
        query: Seq<AssetAttrView>,
        code: AssetResultCode,
    ) -> bool {
        &&& code is Success ==> self.has(query)
        &&& code is NotFound ==> !self.has(query)
    }

    /// The store after a removal with this answer.
    pub open spec fn after_remove(
        self,
        query: Seq<AssetAttrView>,
        code: AssetResultCode,
    ) -> StoreView {
        if code is Success {
            StoreView { assets: self.assets.remove(named(query)) }
        } else {
            self
        }
    }

    /// Whether a written credential may be answered so.
    pub open spec fn may_answer_write(
        self,
        name: Seq<char>,
        username: Seq<char>,
        password: Seq<u8>,
        answers: WriteAnswers,
    ) -> bool {
        let attrs = new_attrs(name, username, password);
        &&& self.may_answer_add(attrs, answers.added)
        &&& answers.added is Duplicated ==> self.after_add(attrs, answers.added).may_answer_update(
            seq![alias(name)],
            answers.updated,
        )
    }

    /// The store after a credential was written with these answers.
    pub open spec fn after_write(
        self,
        name: Seq<char>,
        username: Seq<char>,
        password: Seq<u8>,
        answers: WriteAnswers,
    ) -> StoreView {
        let added = self.after_add(new_attrs(name, username, password), answers.added);
        if answers.added is Duplicated {
            added.after_update(
                seq![alias(name)],
                changing_attrs(username, password),
                answers.updated,
            )
        } else {
            added
        }
    }
}

proof fn lemma_named(name: Seq<char>, username: Seq<char>, password: Seq<u8>)
    ensures
        named(new_attrs(name, username, password)) == encode_utf8(name),
        named(seq![alias(name)]) == encode_utf8(name),
        named(query_attrs(name)) == encode_utf8(name),
{
}

/// What a successful write leaves under the name holds the written credential.
proof fn lemma_written(
    store: StoreView,
    name: Seq<char>,
    username: Seq<char>,
    password: Seq<u8>,
    answers: WriteAnswers,
)
    requires
        answers.succeed(),
    ensures
        ({
            let after = store.after_write(name, username, password, answers);
            let key = encode_utf8(name);
            &&& after.assets.contains_key(key)
            &&& blob_of(after.assets[key], AssetTag::Secret) == Some(password)
            &&& blob_of(after.assets[key], AssetTag::DataLabelNormal1) == Some(
                encode_utf8(username),
            )
        }),
{
    reveal_with_fuel(blob_of, 4);
    lemma_named(name, username, password);
    let key = encode_utf8(name);
    if answers.added is Success {
        let asset = new_attrs(name, username, password);
        assert(asset.skip(1)[0] == asset[1]);
        assert(asset.skip(1).skip(1)[0] == asset[2]);
    } else {
        let asset = changed(store.assets[key], changing_attrs(username, password));
        assert(asset[0] == changing_attrs(username, password)[0]);
        assert(asset.skip(1)[0] == changing_attrs(username, password)[1]);
    }
}

/// A write that succeeds is what the next read of that name gives back, whatever
/// the store held before: the name of the user and the password as they were
/// written. The read finds it unless the store refuses the question.
pub proof fn law_read_gives_last_write(
    store: StoreView,
    name: Seq<char>,
    username: Seq<char>,
    password: Seq<u8>,
    answers: WriteAnswers,
    answer: Result<Seq<Seq<AssetAttrView>>, AssetResultCode>,
)
    requires
        store.may_answer_write(name, username, password, answers),
        answers.succeed(),
        store.after_write(name, username, password, answers).may_answer_query(
            query_attrs(name),
            answer,
        ),
        answer is Ok || answer->Err_0 is NotFound,
    ensures
        read_as(answer) == Ok::<Option<(Seq<char>, Seq<u8>)>, ReadFailure>(
            Some((username, password)),
        ),
{
    lemma_named(name, username, password);
    lemma_written(store, name, username, password, answers);
    let asset = store.after_write(name, username, password, answers).assets[encode_utf8(name)];
    if answer is Ok {
        let found = answer->Ok_0[0];
        assert(blob_of(found, AssetTag::Secret) == blob_of(asset, AssetTag::Secret));
        assert(blob_of(found, AssetTag::DataLabelNormal1) == blob_of(
            asset,
            AssetTag::DataLabelNormal1,
        ));
        encode_utf8_valid_utf8(username);
        encode_utf8_decode_utf8(username);
    }
}

/// A write changes nothing under another name: the store may answer every question
/// for that exactly as it might have before.
pub proof fn law_write_keeps_other_credentials(
    store: StoreView,
    name: Seq<char>,
    username: Seq<char>,
    password: Seq<u8>,
    answers: WriteAnswers,
    other: Seq<char>,
    answer: Result<Seq<Seq<AssetAttrView>>, AssetResultCode>,
)
    requires
        other != name,
    ensures
        store.after_write(name, username, password, answers).may_answer_query(
            query_attrs(other),
            answer,
        ) == store.may_answer_query(query_attrs(other), answer),
{
    lemma_named(name, username, password);
    lemma_named(other, username, password);
    law_names_tell_credentials_apart(name, other);
}

/// Of two writes under one name that both succeed, a read gives the second: it
/// replaces the name of the user and the password. What a read of another name
/// gives stays as it was before both.
pub proof fn law_second_write_replaces_first(
    store: StoreView,
    name: Seq<char>,
    first: (Seq<char>, Seq<u8>),
    first_answers: WriteAnswers,
    second: (Seq<char>, Seq<u8>),
    second_answers: WriteAnswers,
    other: Seq<char>,
)
    requires
        other != name,
        store.may_answer_write(name, first.0, first.1, first_answers),
        first_answers.succeed(),
        store.after_write(name, first.0, first.1, first_answers).may_answer_write(
            name,
            second.0,
            second.1,
            second_answers,
        ),
        second_answers.succeed(),
    ensures
        ({
            let end = store.after_write(name, first.0, first.1, first_answers).after_write(
                name,
                second.0,
                second.1,
                second_answers,
            );
            &&& second_answers.added is Duplicated
            &&& forall|answer: Result<Seq<Seq<AssetAttrView>>, AssetResultCode>|
                #[trigger] end.may_answer_query(query_attrs(name), answer) && (answer is Ok
                    || answer->Err_0 is NotFound) ==> read_as(answer) == Ok::<
                    Option<(Seq<char>, Seq<u8>)>,
                    ReadFailure,
                >(Some(second))
            &&& forall|answer: Result<Seq<Seq<AssetAttrView>>, AssetResultCode>| #[trigger]
                end.may_answer_query(query_attrs(other), answer) == store.may_answer_query(
                    query_attrs(other),
                    answer,
                )
        }),
{
    let between = store.after_write(name, first.0, first.1, first_answers);
    let end = between.after_write(name, second.0, second.1, second_answers);
    lemma_named(name, first.0, first.1);
    lemma_named(name, second.0, second.1);
    lemma_written(store, name, first.0, first.1, first_answers);
    assert forall|answer: Result<Seq<Seq<AssetAttrView>>, AssetResultCode>|
        #[trigger] end.may_answer_query(query_attrs(name), answer) && (answer is Ok
            || answer->Err_0 is NotFound) implies read_as(answer) == Ok::<
        Option<(Seq<char>, Seq<u8>)>,
        ReadFailure,
    >(Some(second)) by {
        law_read_gives_last_write(between, name, second.0, second.1, second_answers, answer);
    }
    assert forall|answer: Result<Seq<Seq<AssetAttrView>>, AssetResultCode>| #[trigger]
        end.may_answer_query(query_attrs(other), answer) == store.may_answer_query(
            query_attrs(other),
            answer,
        ) by {
        law_write_keeps_other_credentials(
            store,
            name,
            first.0,
            first.1,
            first_answers,
            other,
            answer,
        );
        law_write_keeps_other_credentials(
            between,
            name,
            second.0,
            second.1,
            second_answers,
            other,
            answer,
        );
    }
}

/// After a removal that succeeds, or that finds nothing to remove, a read finds no
/// credential under that name, and those under other names stay.
pub proof fn law_removed_credential_is_gone(
    store: StoreView,
    name: Seq<char>,
    code: AssetResultCode,
    other: Seq<char>,
)
    requires
        other != name,
        store.may_answer_remove(seq![alias(name)], code),
        code is Success || code is NotFound,
    ensures
        ({
            let end = store.after_remove(seq![alias(name)], code);
            &&& forall|answer: Result<Seq<Seq<AssetAttrView>>, AssetResultCode>|
                #[trigger] end.may_answer_query(query_attrs(name), answer) && (answer is Ok
                    || answer->Err_0 is NotFound) ==> read_as(answer) == Ok::<
                    Option<(Seq<char>, Seq<u8>)>,
                    ReadFailure,
                >(None)
            &&& forall|answer: Result<Seq<Seq<AssetAttrView>>, AssetResultCode>| #[trigger]
                end.may_answer_query(query_attrs(other), answer) == store.may_answer_query(
                    query_attrs(other),
                    answer,
                )
        }),
{
    lemma_named(name, name, seq![]);
    lemma_named(other, other, seq![]);
    law_names_tell_credentials_apart(name, other);
}

/// A store that refuses nothing takes every write: it adds a credential that it
/// does not have and changes one that it has.
pub proof fn law_willing_store_takes_every_write(
    store: StoreView,
    name: Seq<char>,
    username: Seq<char>,
    password: Seq<u8>,
)
    ensures
        ({
            let answers = WriteAnswers {
                added: if store.has(seq![alias(name)]) {
                    AssetResultCode::Duplicated
                } else {
                    AssetResultCode::Success
                },
                updated: AssetResultCode::Success,
            };
            store.may_answer_write(name, username, password, answers) && answers.succeed()
        }),
{
    lemma_named(name, username, password);
}

/// Whether an attribute has a tag and holds bytes.
pub open spec fn has_bytes(attr: AssetAttrView, tag: AssetTag) -> bool {
    attr.tag == tag && attr.value is Blob
}

/// Of the attributes that have a tag and hold bytes, the first counts: what comes
/// before it and after it changes nothing.
pub proof fn law_first_bytes_count(attrs: Seq<AssetAttrView>, tag: AssetTag)
    ensures
        blob_of(attrs, tag) is None <==> forall|i: int|
            0 <= i < attrs.len() ==> !has_bytes(#[trigger] attrs[i], tag),
        forall|i: int|
            0 <= i < attrs.len() && has_bytes(#[trigger] attrs[i], tag) && (forall|j: int|
                0 <= j < i ==> !has_bytes(#[trigger] attrs[j], tag)) ==> blob_of(attrs, tag)
                == Some(attrs[i].value->Blob_0),
    decreases attrs.len(),
{
    if attrs.len() > 0 && !has_bytes(attrs[0], tag) {
        let rest = attrs.skip(1);
        law_first_bytes_count(rest, tag);
        assert forall|i: int| 0 < i < attrs.len() implies #[trigger] attrs[i] == rest[i - 1] by {}
        if blob_of(attrs, tag) is None {
            assert forall|i: int| 0 <= i < attrs.len() implies !has_bytes(
                #[trigger] attrs[i],
                tag,
            ) by {
                if i > 0 {
                    assert(!has_bytes(rest[i - 1], tag));
                }
            }
        } else {
            let k = choose|k: int| 0 <= k < rest.len() && has_bytes(#[trigger] rest[k], tag);
            assert(has_bytes(attrs[k + 1], tag));
        }
        assert forall|i: int|
            0 <= i < attrs.len() && has_bytes(#[trigger] attrs[i], tag) && (forall|j: int|
                0 <= j < i ==> !has_bytes(#[trigger] attrs[j], tag)) implies blob_of(attrs, tag)
            == Some(attrs[i].value->Blob_0) by {
            assert forall|j: int| 0 <= j < i - 1 implies !has_bytes(#[trigger] rest[j], tag) by {
                assert(!has_bytes(attrs[j + 1], tag));
            }
            assert(has_bytes(rest[i - 1], tag));
        }
    }
}

/// A new credential holds its name, its password, the name of its user and that it can
/// be read once the device was unlocked, and nothing else; a change holds the password
/// and the name of the user; and a question holds the name and asks for everything.
pub proof fn law_attributes_of_credential(name: Seq<char>, username: Seq<char>, password: Seq<u8>)
    ensures
        ({
            let written = new_attrs(name, username, password);
            &&& written.len() == 4
            &&& blob_of(written, AssetTag::Alias) == Some(encode_utf8(name))
            &&& blob_of(written, AssetTag::Secret) == Some(password)
            &&& blob_of(written, AssetTag::DataLabelNormal1) == Some(encode_utf8(username))
            &&& written[3].tag is Accessibility
            &&& written[3].value == AssetValueView::Accessibility(
                AssetAccessibility::DeviceFirstUnlocked,
            )
        }),
        ({
            let changed = changing_attrs(username, password);
            &&& changed.len() == 2
            &&& blob_of(changed, AssetTag::Secret) == Some(password)
            &&& blob_of(changed, AssetTag::DataLabelNormal1) == Some(encode_utf8(username))
        }),
        ({
            let query = query_attrs(name);
            &&& query.len() == 2
            &&& blob_of(query, AssetTag::Alias) == Some(encode_utf8(name))
            &&& query[1].tag is ReturnType
            &&& query[1].value == AssetValueView::ReturnType(AssetReturnType::All)
        }),
        alias(name).tag is Alias,
        alias(name).value == AssetValueView::Blob(encode_utf8(name)),
{
    let written = new_attrs(name, username, password);
    let changed = changing_attrs(username, password);
    let query = query_attrs(name);
    law_first_bytes_count(written, AssetTag::Alias);
    law_first_bytes_count(written, AssetTag::Secret);
    law_first_bytes_count(written, AssetTag::DataLabelNormal1);
    law_first_bytes_count(changed, AssetTag::Secret);
    law_first_bytes_count(changed, AssetTag::DataLabelNormal1);
    law_first_bytes_count(query, AssetTag::Alias);
    assert(has_bytes(written[0], AssetTag::Alias));
    assert(has_bytes(written[1], AssetTag::Secret));
    assert(has_bytes(written[2], AssetTag::DataLabelNormal1));
    assert(has_bytes(changed[0], AssetTag::Secret));
    assert(has_bytes(changed[1], AssetTag::DataLabelNormal1));
    assert(has_bytes(query[0], AssetTag::Alias));
}

/// An asset without the name of a user is refused for that, whatever else it lacks;
/// one without a password for that, whatever the name is; and one whose name is not
/// text for that. Any other reads as its name and its password.
pub proof fn law_incomplete_asset_is_refused(attrs: Seq<AssetAttrView>)
    ensures
        ({
            let username = blob_of(attrs, AssetTag::DataLabelNormal1);
            let password = blob_of(attrs, AssetTag::Secret);
            let read = decoded(attrs);
            &&& username is None <==> read is Err && read->Err_0 is NoUsername
            &&& username is Some && password is None <==> read is Err && read->Err_0 is NoPassword
            &&& username is Some && password is Some && !valid_utf8(username->0) <==> read is Err
                && read->Err_0 is BadUsername
            &&& read is Ok ==> encode_utf8(read->Ok_0.0) == username->0 && read->Ok_0.1
                == password->0
        }),
{
    let username = blob_of(attrs, AssetTag::DataLabelNormal1);
    if username is Some && valid_utf8(username->0) {
        vstd::utf8::decode_utf8_encode_utf8(username->0);
    }
}

/// What is read is the first of the assets that were found. None found is no
/// credential, and so is the answer that there is none; any other answer that is no
/// success is a refusal.
pub proof fn law_first_asset_counts(
    found: Seq<Seq<AssetAttrView>>,
    more: Seq<Seq<AssetAttrView>>,
    code: AssetResultCode,
)
    ensures
        found.len() == 1 ==> read_as(Ok(found + more)) == read_as(Ok(found)),
        found.len() == 1 && decoded(found[0]) is Ok ==> read_as(Ok(found)) == Ok::<
            Option<(Seq<char>, Seq<u8>)>,
            ReadFailure,
        >(Some(decoded(found[0])->Ok_0)),
        found.len() == 1 && decoded(found[0]) is Err ==> read_as(Ok(found)) == Err::<
            Option<(Seq<char>, Seq<u8>)>,
            ReadFailure,
        >(ReadFailure::Wrong(decoded(found[0])->Err_0)),
        found.len() == 0 ==> read_as(Ok(found)) == Ok::<
            Option<(Seq<char>, Seq<u8>)>,
            ReadFailure,
        >(None),
        code is NotFound ==> read_as(Err(code)) == Ok::<
            Option<(Seq<char>, Seq<u8>)>,
            ReadFailure,
        >(None),
        !(code is NotFound) ==> read_as(Err(code)) == Err::<
            Option<(Seq<char>, Seq<u8>)>,
            ReadFailure,
        >(ReadFailure::Refused),
{
}

/// A refusal is told by the operation that was refused and by the store's reason for
/// it, and what is wrong with an asset by the error for that.
pub proof fn law_refusal_is_told(
    error: CredentialError,
    operation: Seq<char>,
    reason: Seq<char>,
    wrong: CredentialErrorView,
)
    ensures
        error.is_refusal(operation, reason) ==> error is Store && error->operation@ == operation
            && error->reason@ == reason,
        error.is_refusal(operation, reason) ==> error.text() == "AssetStore "@ + operation
            + " failed: "@ + reason,
        error.tells(wrong) ==> error.text() == match wrong {
            CredentialErrorView::NoUsername => "AssetStore credential has no username"@,
            CredentialErrorView::NoPassword => "AssetStore credential has no password"@,
            CredentialErrorView::BadUsername(why) => why,
        },
        error.tells(wrong) ==> !(error is Store) && (error is NoUsername <==> wrong
            is NoUsername) && (error is NoPassword <==> wrong is NoPassword),
{
}

/// A write ends well exactly where the store then holds the written credential: with
/// the first answer, or with the second where the first said that there is one already.
pub proof fn law_write_ends_with_credential_stored(
    store: StoreView,
    name: Seq<char>,
    username: Seq<char>,
    password: Seq<u8>,
    answers: WriteAnswers,
)
    requires
        store.may_answer_write(name, username, password, answers),
    ensures
        ({
            let after = store.after_write(name, username, password, answers);
            let key = encode_utf8(name);
            let well = write_ends(answers.added) == Some(true) || (write_ends(answers.added)
                is None && answers.updated is Success);
            &&& well <==> answers.succeed()
            &&& well ==> after.assets.contains_key(key) && decoded(after.assets[key]) == Ok::<
                (Seq<char>, Seq<u8>),
                CredentialErrorView,
            >((username, password))
            &&& !well ==> after == store
        }),
{
    if answers.succeed() {
        lemma_written(store, name, username, password, answers);
        encode_utf8_valid_utf8(username);
        encode_utf8_decode_utf8(username);
    }
}

/// A removal ends well exactly where the store has no such credential then, unless the
/// store refused.
pub proof fn law_removal_ends_with_credential_gone(
    store: StoreView,
    name: Seq<char>,
    code: AssetResultCode,
)
    requires
        store.may_answer_remove(seq![alias(name)], code),
    ensures
        is_gone(code) ==> !store.after_remove(seq![alias(name)], code).has(seq![alias(name)]),
        !is_gone(code) ==> store.after_remove(seq![alias(name)], code) == store,
        is_gone(code) <==> !(code is Duplicated) && !(code is Failure),
{
}

} // verus!
