use gpui_ohos::credentials::{
    check, decode, delete, delete_done, read, read_found, write_added, write_updated,
    AssetAccessibility, AssetAttr, AssetOutcome, AssetResultCode, AssetReturnType, AssetTag,
    AssetValue, CredentialError, WriteStep,
};

fn outcome(code: AssetResultCode, text: &str) -> AssetOutcome {
    AssetOutcome { code, text: text.to_owned() }
}

/// A store that refuses nothing: the bytes of each asset by their tags.
struct Store {
    assets: Vec<Vec<(AssetTag, Vec<u8>)>>,
}

fn blobs(attrs: Vec<AssetAttr>) -> Vec<(AssetTag, Vec<u8>)> {
    attrs
        .into_iter()
        .filter_map(|attr| match attr.value {
            AssetValue::Blob(bytes) => Some((attr.tag, bytes)),
            _ => None,
        })
        .collect()
}

impl Store {
    fn find(&self, query: &[(AssetTag, Vec<u8>)]) -> Option<usize> {
        let alias = query.iter().find(|(tag, _)| *tag == AssetTag::Alias).unwrap();
        self.assets.iter().position(|asset| asset.contains(alias))
    }

    fn write(&mut self, name: &str, username: &str, password: &[u8]) {
        let asset = blobs(gpui_ohos::credentials::write(name, username, password));
        let code = if self.find(&asset).is_some() {
            AssetResultCode::Duplicated
        } else {
            self.assets.push(asset);
            AssetResultCode::Success
        };
        match write_added(name, username, password, outcome(code, "")) {
            WriteStep::Finished(result) => result.unwrap(),
            WriteStep::Update { query, attrs } => {
                let at = self.find(&blobs(query)).unwrap();
                for (tag, bytes) in blobs(attrs) {
                    self.assets[at].retain(|(old, _)| *old != tag);
                    self.assets[at].push((tag, bytes));
                }
                write_updated(outcome(AssetResultCode::Success, "")).unwrap();
            }
        }
    }

    fn read(&self, name: &str) -> Option<(String, Vec<u8>)> {
        let answer = match self.find(&blobs(read(name))) {
            Some(at) => {
                Ok(vec![self.assets[at].iter().map(|(tag, bytes)| blob(*tag, bytes)).collect()])
            }
            None => Err(outcome(AssetResultCode::NotFound, "")),
        };
        read_found(answer).unwrap()
    }

    fn delete(&mut self, name: &str) {
        let code = match self.find(&blobs(delete(name))) {
            Some(at) => {
                self.assets.remove(at);
                AssetResultCode::Success
            }
            None => AssetResultCode::NotFound,
        };
        delete_done(outcome(code, "")).unwrap();
    }
}

fn blob(tag: AssetTag, bytes: &[u8]) -> AssetAttr {
    AssetAttr { tag, value: AssetValue::Blob(bytes.to_vec()) }
}

#[test]
fn store_answers() {
    assert!(check("add", outcome(AssetResultCode::Success, "Success")).is_ok());
    let error =
        check("add", outcome(AssetResultCode::NotFound, "The asset is not found.")).unwrap_err();
    assert_eq!(error.message(), "AssetStore add failed: The asset is not found.");
}

#[test]
fn written_attributes() {
    assert_eq!(
        gpui_ohos::credentials::write("key", "üser", b"pw"),
        vec![
            blob(AssetTag::Alias, b"key"),
            blob(AssetTag::Secret, b"pw"),
            blob(AssetTag::DataLabelNormal1, "üser".as_bytes()),
            AssetAttr {
                tag: AssetTag::Accessibility,
                value: AssetValue::Accessibility(AssetAccessibility::DeviceFirstUnlocked),
            },
        ]
    );
}

#[test]
fn added_credential_is_finished() {
    assert!(matches!(
        write_added("key", "u", b"p", outcome(AssetResultCode::Success, "")),
        WriteStep::Finished(Ok(()))
    ));
    assert!(matches!(
        write_added("key", "u", b"p", outcome(AssetResultCode::Failure, "IPC failed.")),
        WriteStep::Finished(Err(error)) if error.message() == "AssetStore add failed: IPC failed."
    ));
}

#[test]
fn existing_credential_is_updated() {
    match write_added("key", "u", b"p", outcome(AssetResultCode::Duplicated, "")) {
        WriteStep::Update { query, attrs } => {
            assert_eq!(query, vec![blob(AssetTag::Alias, b"key")]);
            assert_eq!(
                attrs,
                vec![blob(AssetTag::Secret, b"p"), blob(AssetTag::DataLabelNormal1, b"u")]
            );
        }
        WriteStep::Finished(_) => panic!("the credential has to be updated"),
    }
    assert!(write_updated(outcome(AssetResultCode::Success, "")).is_ok());
    assert_eq!(
        write_updated(outcome(AssetResultCode::Failure, "Insufficient memory."))
            .unwrap_err()
            .message(),
        "AssetStore update failed: Insufficient memory."
    );
}

#[test]
fn question_asks_for_everything() {
    assert_eq!(
        read("key"),
        vec![
            blob(AssetTag::Alias, b"key"),
            AssetAttr {
                tag: AssetTag::ReturnType,
                value: AssetValue::ReturnType(AssetReturnType::All),
            },
        ]
    );
}

#[test]
fn written_credential_reads_back() {
    let stored = gpui_ohos::credentials::write("key", "üser", &[0, 255, 7]);
    assert_eq!(
        read_found(Ok(vec![stored])),
        Ok(Some(("üser".to_owned(), vec![0, 255, 7])))
    );
}

#[test]
fn first_found_asset_counts() {
    let found = vec![gpui_ohos::credentials::write("key", "a", b"1"), gpui_ohos::credentials::write("key", "b", b"2")];
    assert_eq!(read_found(Ok(found)), Ok(Some(("a".to_owned(), b"1".to_vec()))));
}

#[test]
fn nothing_found_is_no_credential() {
    assert_eq!(read_found(Ok(vec![])), Ok(None));
    assert_eq!(read_found(Err(outcome(AssetResultCode::NotFound, ""))), Ok(None));
    assert_eq!(
        read_found(Err(outcome(AssetResultCode::Failure, "Access denied."))).unwrap_err().message(),
        "AssetStore query failed: Access denied."
    );
}

#[test]
fn incomplete_assets_are_errors() {
    let secret = blob(AssetTag::Secret, b"p");
    assert_eq!(decode(&vec![secret]), Err(CredentialError::NoUsername));
    assert_eq!(
        CredentialError::NoUsername.message(),
        "AssetStore credential has no username"
    );
    let label = blob(AssetTag::DataLabelNormal1, b"u");
    assert_eq!(decode(&vec![label]), Err(CredentialError::NoPassword));
    assert_eq!(
        CredentialError::NoPassword.message(),
        "AssetStore credential has no password"
    );
    let not_bytes = AssetAttr { tag: AssetTag::Secret, value: AssetValue::Number(4) };
    let label = blob(AssetTag::DataLabelNormal1, b"u");
    let secret = blob(AssetTag::Secret, b"p");
    let other = AssetAttr { tag: AssetTag::Other(9), value: AssetValue::Boolean(true) };
    assert_eq!(
        decode(&vec![other, not_bytes, label, secret]),
        Ok(("u".to_owned(), b"p".to_vec()))
    );
}

#[test]
fn username_has_to_be_text() {
    let attrs = vec![blob(AssetTag::DataLabelNormal1, &[0xff]), blob(AssetTag::Secret, b"p")];
    let error = decode(&attrs).unwrap_err();
    assert_eq!(error.message(), "invalid utf-8 sequence of 1 bytes from index 0");
}

#[test]
fn removal() {
    assert_eq!(delete("key"), vec![blob(AssetTag::Alias, b"key")]);
    assert!(delete_done(outcome(AssetResultCode::Success, "")).is_ok());
    assert!(delete_done(outcome(AssetResultCode::NotFound, "")).is_ok());
    assert_eq!(
        delete_done(outcome(AssetResultCode::Duplicated, "exists")).unwrap_err().message(),
        "AssetStore remove failed: exists"
    );
}

#[test]
fn second_write_replaces_first() {
    let mut store = Store { assets: vec![] };
    store.write("other", "someone", b"else");
    store.write("key", "first", b"one");
    assert_eq!(store.read("key"), Some(("first".to_owned(), b"one".to_vec())));
    store.write("key", "second", b"two");
    assert_eq!(store.read("key"), Some(("second".to_owned(), b"two".to_vec())));
    assert_eq!(store.read("other"), Some(("someone".to_owned(), b"else".to_vec())));
    assert_eq!(store.assets.len(), 2);
}

#[test]
fn removed_credential_is_gone() {
    let mut store = Store { assets: vec![] };
    store.write("key", "user", b"pw");
    store.write("other", "someone", b"else");
    store.delete("key");
    assert_eq!(store.read("key"), None);
    store.delete("key");
    assert_eq!(store.read("key"), None);
    assert_eq!(store.read("other"), Some(("someone".to_owned(), b"else".to_vec())));
}
