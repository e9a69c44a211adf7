//! The notifier configuration: token, optional payload fields, and the
//! builder-style setters that fill them in.

use vstd::prelude::*;

use crate::parts::{FormPart, PartView, parts_view};
use crate::path::{basename, spec_basename};

verus! {

/// The mathematical view of a [`LineNotify`] configuration: the token and
/// each optional payload field as a sequence of characters.
pub struct NotifyView {
    pub token: Seq<char>,
    pub message: Option<Seq<char>>,
    pub image_thumb: Option<Seq<char>>,
    pub image_full: Option<Seq<char>>,
    pub image_file: Option<Seq<char>>,
}

impl NotifyView {
    /// Exactly one of the thumbnail / full-size image URLs is set.
    pub open spec fn pair_inconsistent(self) -> bool {
        (self.image_thumb is Some) != (self.image_full is Some)
    }

    /// At least one payload is set: a message, a complete image URL pair,
    /// or an image file.
    pub open spec fn has_payload(self) -> bool {
        ||| self.message is Some
        ||| self.image_thumb is Some && self.image_full is Some
        ||| self.image_file is Some
    }

    /// A configuration passes validation exactly when its image URL pair is
    /// consistent and some payload is set.
    pub open spec fn valid(self) -> bool {
        !self.pair_inconsistent() && self.has_payload()
    }

    /// The parts of the multipart form this configuration assembles, in
    /// wire order: `message`, `imageThumbnail`, `imageFullsize`, and — when
    /// an image file is configured and its bytes were read — `imageFile`,
    /// whose reported filename is the base name of the configured path.
    pub open spec fn spec_parts(self, file_data: Option<Seq<u8>>) -> Seq<PartView> {
        (if self.message is Some {
            seq![PartView::Text { name: "message"@, value: self.message->0 }]
        } else {
            Seq::<PartView>::empty()
        }) + (if self.image_thumb is Some {
            seq![PartView::Text { name: "imageThumbnail"@, value: self.image_thumb->0 }]
        } else {
            Seq::<PartView>::empty()
        }) + (if self.image_full is Some {
            seq![PartView::Text { name: "imageFullsize"@, value: self.image_full->0 }]
        } else {
            Seq::<PartView>::empty()
        }) + (if self.image_file is Some && file_data is Some {
            seq![
                PartView::File {
                    name: "imageFile"@,
                    filename: spec_basename(self.image_file->0),
                    data: file_data->0,
                },
            ]
        } else {
            Seq::<PartView>::empty()
        })
    }
}

/// An error produced while preparing or performing a notification.
#[derive(Debug, Clone, PartialEq, Eq)]
pub enum NotifyError {
    /// No payload field is configured: no message, no complete image URL
    /// pair, and no image file.
    MissingPayload,
    /// Exactly one of the thumbnail / full-size image URLs is configured;
    /// they must be set together or not at all.
    InconsistentImagePair,
    /// The configured image file could not be read; carries the cause.
    FileReadError(String),
    /// The HTTP exchange itself failed (connection, timeout, TLS); carries
    /// the cause.
    TransportError(String),
}

/// A configuration with every payload field unset is rejected: its image
/// URL pair is consistent, yet it carries no payload, so by
/// [`LineNotify::validate`]'s contract it fails with `MissingPayload`, and
/// no form is ever assembled for it.
pub proof fn lemma_no_payload_rejected(v: NotifyView)
    requires
        v.message is None,
        v.image_thumb is None,
        v.image_full is None,
        v.image_file is None,
    ensures
        !v.pair_inconsistent(),
        !v.has_payload(),
        !v.valid(),
{
}

/// A valid message-only configuration assembles exactly one part: the
/// `message` text field carrying the exact text provided.
pub proof fn lemma_message_only_single_part(v: NotifyView)
    requires
        v.message is Some,
        v.image_thumb is None,
        v.image_full is None,
        v.image_file is None,
    ensures
        v.valid(),
        v.spec_parts(None).len() == 1,
        v.spec_parts(None)[0] == (PartView::Text { name: "message"@, value: v.message->0 }),
{
    assert(v.spec_parts(None) =~= seq![
        (PartView::Text { name: "message"@, value: v.message->0 }),
    ]);
}

/// A valid configuration with a message and an image file whose bytes were
/// read assembles exactly two parts: the message text, then an `imageFile`
/// part whose bytes equal the file's contents exactly and whose reported
/// filename is the base name of the configured path.
pub proof fn lemma_file_part_carries_bytes(v: NotifyView, data: Seq<u8>)
    requires
        v.message is Some,
        v.image_thumb is None,
        v.image_full is None,
        v.image_file is Some,
    ensures
        v.valid(),
        v.spec_parts(Some(data)).len() == 2,
        v.spec_parts(Some(data))[0] == (PartView::Text { name: "message"@, value: v.message->0 }),
        v.spec_parts(Some(data))[1] == (PartView::File {
            name: "imageFile"@,
            filename: spec_basename(v.image_file->0),
            data: data,
        }),
{
    assert(v.spec_parts(Some(data)) =~= seq![
        (PartView::Text { name: "message"@, value: v.message->0 }),
        (PartView::File {
            name: "imageFile"@,
            filename: spec_basename(v.image_file->0),
            data: data,
        }),
    ]);
}

impl NotifyError {
    /// A human-readable account of the error; for the wrapped kinds it is
    /// the embedded cause itself.
    pub fn describe(&self) -> (r: String)
        ensures
            self is MissingPayload ==> r@ == "no message or image payload is configured"@,
            self is InconsistentImagePair ==> r@
                == "both image thumbnail and full-size URLs must be specified"@,
            self matches NotifyError::FileReadError(e) ==> r@ == e@,
            self matches NotifyError::TransportError(e) ==> r@ == e@,
    {
        match self {
            NotifyError::MissingPayload => "no message or image payload is configured".to_owned(),
            NotifyError::InconsistentImagePair => {
                "both image thumbnail and full-size URLs must be specified".to_owned()
            },
            NotifyError::FileReadError(e) => e.clone(),
            NotifyError::TransportError(e) => e.clone(),
        }
    }
}

/// Holds the configuration necessary for sending a notification to the
/// LINE Notify API: a bearer token and the optional payload fields.
pub struct LineNotify {
    token: String,
    message: Option<String>,
    image_thumb: Option<String>,
    image_full: Option<String>,
    image_file: Option<String>,
}

impl View for LineNotify {
    type V = NotifyView;

    closed spec fn view(&self) -> NotifyView {
        NotifyView {
            token: self.token@,
            message: self.message.deep_view(),
            image_thumb: self.image_thumb.deep_view(),
            image_full: self.image_full.deep_view(),
            image_file: self.image_file.deep_view(),
        }
    }
}

impl LineNotify {
    /// Creates a configuration with the given access token and every
    /// payload field unset.
    pub fn new(token: String) -> (r: Self)
        ensures
            r@ == (NotifyView {
                token: token@,
                message: None,
                image_thumb: None,
                image_full: None,
                image_file: None,
            }),
    {
        LineNotify {
            token,
            message: None,
            image_thumb: None,
            image_full: None,
            image_file: None,
        }
    }

    /// Sets the text message to be sent, overwriting any earlier one.
    pub fn set_message(self, message: &str) -> (r: Self)
        ensures
            r@ == (NotifyView { message: Some(message@), ..self@ }),
    {
        LineNotify { message: Some(message.to_owned()), ..self }
    }

    /// Sets the URL of the thumbnail image, overwriting any earlier one.
    pub fn set_image_thumb(self, file_path: &str) -> (r: Self)
        ensures
            r@ == (NotifyView { image_thumb: Some(file_path@), ..self@ }),
    {
        LineNotify { image_thumb: Some(file_path.to_owned()), ..self }
    }

    /// Sets the URL of the full-size image, overwriting any earlier one.
    pub fn set_image_full(self, file_path: &str) -> (r: Self)
        ensures
            r@ == (NotifyView { image_full: Some(file_path@), ..self@ }),
    {
        LineNotify { image_full: Some(file_path.to_owned()), ..self }
    }

    /// Sets the path of the image file to upload, overwriting any earlier
    /// one.
    pub fn set_image_file(self, file_path: &str) -> (r: Self)
        ensures
            r@ == (NotifyView { image_file: Some(file_path@), ..self@ }),
    {
        LineNotify { image_file: Some(file_path.to_owned()), ..self }
    }

    /// The access token, as handed to [`LineNotify::new`].
    pub fn token(&self) -> (r: &String)
        ensures
            r@ == self@.token,
    {
        &self.token
    }

    /// The configured image file path, if any.
    pub fn image_file(&self) -> (r: Option<&String>)
        ensures
            r is Some <==> self@.image_file is Some,
            r matches Some(p) ==> p@ == self@.image_file->0,
    {
        self.image_file.as_ref()
    }

    /// Checks the configuration without touching file or network: the image
    /// URL pair must be consistent, and some payload must be set.
    pub fn validate(&self) -> (r: Result<(), NotifyError>)
        ensures
            self@.valid() <==> r is Ok,
            self@.pair_inconsistent() ==> r == Err::<(), NotifyError>(
                NotifyError::InconsistentImagePair,
            ),
            !self@.pair_inconsistent() && !self@.has_payload() ==> r == Err::<(), NotifyError>(
                NotifyError::MissingPayload,
            ),
    {
        if self.image_thumb.is_some() != self.image_full.is_some() {
            Err(NotifyError::InconsistentImagePair)
        } else if self.message.is_none() && self.image_thumb.is_none()
            && self.image_file.is_none() {
            Err(NotifyError::MissingPayload)
        } else {
            Ok(())
        }
    }

    /// Assembles the parts of the multipart form for this configuration.
    ///
    /// `file` is the outcome of reading the configured image file, handed
    /// in by the caller: it must be present exactly when an image file path
    /// is configured. Validation comes first — an inconsistent image URL
    /// pair, then a missing payload — and only then a failed file read; a
    /// valid configuration with readable bytes yields exactly the parts of
    /// [`NotifyView::spec_parts`].
    pub fn build_parts(&self, file: Option<Result<Vec<u8>, String>>) -> (r: Result<
        Vec<FormPart>,
        NotifyError,
    >)
        requires
            file is Some <==> self@.image_file is Some,
        ensures
            self@.pair_inconsistent() ==> r == Err::<Vec<FormPart>, NotifyError>(
                NotifyError::InconsistentImagePair,
            ),
            !self@.pair_inconsistent() && !self@.has_payload() ==> r == Err::<
                Vec<FormPart>,
                NotifyError,
            >(NotifyError::MissingPayload),
            self@.valid() ==> (file matches Some(Err(e)) ==> r == Err::<Vec<FormPart>, NotifyError>(
                NotifyError::FileReadError(e),
            )),
            self@.valid() && !(file matches Some(Err(_))) ==> (r matches Ok(parts) && parts_view(
                parts@,
            ) == self@.spec_parts(spec_file_data(file))),
    {
        if let Err(e) = self.validate() {
            return Err(e);
        }
        let mut parts: Vec<FormPart> = Vec::new();
        if let Some(m) = &self.message {
            parts.push(FormPart::Text { name: "message".to_owned(), value: m.clone() });
        }
        if let Some(url) = &self.image_thumb {
            parts.push(FormPart::Text { name: "imageThumbnail".to_owned(), value: url.clone() });
        }
        if let Some(url) = &self.image_full {
            parts.push(FormPart::Text { name: "imageFullsize".to_owned(), value: url.clone() });
        }
        if let Some(file_path) = &self.image_file {
            match file {
                Some(Ok(data)) => {
                    let filename = basename(file_path.as_str());
                    parts.push(FormPart::File { name: "imageFile".to_owned(), filename, data });
                },
                Some(Err(e)) => {
                    return Err(NotifyError::FileReadError(e));
                },
                None => {
                    return unreached();
                },
            }
        }
        proof {
            assert(parts_view(parts@) =~= self@.spec_parts(spec_file_data(file)));
        }
        Ok(parts)
    }
}

/// The bytes a file read handed back, if it took place and succeeded.
pub open spec fn spec_file_data(file: Option<Result<Vec<u8>, String>>) -> Option<Seq<u8>> {
    match file {
        Some(Ok(data)) => Some(data@),
        _ => None,
    }
}

/// The fixed endpoint notifications are posted to.
pub fn api_url() -> (r: &'static str)
    ensures
        r@ == spec_api_url(),
{
    "https://notify-api.line.me/api/notify"
}

/// The view of the fixed endpoint URL.
pub open spec fn spec_api_url() -> Seq<char> {
    "https://notify-api.line.me/api/notify"@
}

} // verus!
