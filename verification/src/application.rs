//! The application layer: what a transport payload holds, as far as it can
//! be told.

use crate::descriptor::ProtocolType;
use crate::dns::{message_of, DnsMessage, DnsMessageView, DnsQuestion};
use crate::text::{
    bytes_text, decimal, decimal_text, fields_view, push_bytes, push_decimal, push_field, truth,
    truth_text,
};
use vstd::prelude::*;
use vstd::string::StringExecFns;

verus! {

/// The payload of a transport layer: a DNS message, or bytes that are none.
#[derive(Clone, Debug)]
pub enum Application {
    Dns(DnsMessage),
    Other(Vec<u8>),
}

/// An application layer as a mathematical value.
pub enum ApplicationView {
    Dns(DnsMessageView),
    Other(Seq<u8>),
}

impl View for Application {
    type V = ApplicationView;

    open spec fn view(&self) -> ApplicationView {
        match self {
            Application::Dns(message) => ApplicationView::Dns(message@),
            Application::Other(bytes) => ApplicationView::Other(bytes@),
        }
    }
}

/// The entry point of application-layer classification.
#[derive(Clone, Copy, Debug)]
pub struct AppParser;

/// The application layer of a payload: the DNS message that the payload is,
/// or the payload itself where it is none.
pub open spec fn application_of(payload: Seq<u8>) -> ApplicationView {
    match message_of(payload) {
        Ok(message) => ApplicationView::Dns(message),
        Err(_) => ApplicationView::Other(payload),
    }
}

/// Classifies the payload of a transport layer.
pub fn parse_app_layer(data: &[u8]) -> (layer: Application)
    ensures
        layer@ == application_of(data@),
{
    match DnsMessage::new(data) {
        Ok(message) => Application::Dns(message),
        Err(_) => Application::Other(vstd::slice::slice_to_vec(data)),
    }
}

/// Whether the flags of a DNS header mark a response.
pub open spec fn is_response(flags: u16) -> bool {
    flags >= 0x8000
}

/// The name of the field of the question at `index`: `question` for the
/// first question, and `question` with its number, counted from one, for
/// each later one.
pub open spec fn question_field_name(index: int) -> Seq<char> {
    if index == 0 {
        "question"@
    } else {
        "question "@ + decimal((index + 1) as nat)
    }
}

/// One field for each question, with the name asked for.
pub open spec fn question_fields(message: DnsMessageView) -> Seq<(Seq<char>, Seq<char>)> {
    Seq::new(
        message.questions.len(),
        |i: int| (question_field_name(i), bytes_text(message.questions[i].name.text)),
    )
}

impl ApplicationView {
    /// The identity of the layer.
    pub open spec fn protocol_type(self) -> ProtocolType {
        match self {
            ApplicationView::Dns(_) => ProtocolType::Dns,
            ApplicationView::Other(_) => ProtocolType::Other,
        }
    }

    /// The one-line description of the layer.
    pub open spec fn info(self) -> Seq<char> {
        match self {
            ApplicationView::Dns(message) => "DNS "@ + (if is_response(message.header.flags) {
                "response"@
            } else {
                "query"@
            }) + ", id "@ + decimal(message.header.id as nat),
            ApplicationView::Other(bytes) => decimal(bytes.len()) + " bytes of data"@,
        }
    }

    /// The fields of the layer.
    pub open spec fn summary(self) -> Seq<(Seq<char>, Seq<char>)> {
        match self {
            ApplicationView::Dns(message) => seq![
                ("protocol"@, "dns"@),
                ("id"@, decimal(message.header.id as nat)),
                ("response"@, truth(is_response(message.header.flags))),
                ("questions"@, decimal(message.header.question_count as nat)),
                ("answers"@, decimal(message.header.answer_count as nat)),
                ("authorities"@, decimal(message.header.authority_count as nat)),
                ("additionals"@, decimal(message.header.additional_count as nat)),
            ] + question_fields(message),
            ApplicationView::Other(bytes) => seq![
                ("protocol"@, "data"@),
                ("length"@, decimal(bytes.len())),
            ],
        }
    }
}

/// The name that a question asks for, as text.
fn question_name(question: &DnsQuestion) -> (s: String)
    ensures
        s@ == bytes_text(question@.name.text),
{
    let mut s = String::new();
    push_bytes(&mut s, &question.name.text);
    s
}

impl Application {
    /// The identity of the layer: `Dns` or `Other`.
    pub fn protocol_type(&self) -> (tag: ProtocolType)
        ensures
            tag == self@.protocol_type(),
    {
        match self {
            Application::Dns(_) => ProtocolType::Dns,
            Application::Other(_) => ProtocolType::Other,
        }
    }

    /// The source of the layer: an application layer has none.
    pub fn source(&self) -> (s: String)
        ensures
            s@ == Seq::<char>::empty(),
    {
        String::new()
    }

    /// The destination of the layer: an application layer has none.
    pub fn destination(&self) -> (s: String)
        ensures
            s@ == Seq::<char>::empty(),
    {
        String::new()
    }

    /// The one-line description of the layer.
    pub fn info(&self) -> (s: String)
        ensures
            s@ == self@.info(),
    {
        match self {
            Application::Dns(message) => {
                let mut s = String::from_str("DNS ");
                if message.header.flags >= 0x8000 {
                    s.append("response");
                } else {
                    s.append("query");
                }
                s.append(", id ");
                push_decimal(&mut s, message.header.id as u64);
                s
            },
            Application::Other(bytes) => {
                let mut s = decimal_text(bytes.len() as u64);
                s.append(" bytes of data");
                s
            },
        }
    }

    /// The fields of the layer, the field `protocol` first.
    pub fn get_summary(&self) -> (fields: Vec<(String, String)>)
        ensures
            fields_view(fields@) == self@.summary(),
    {
        let mut fields: Vec<(String, String)> = Vec::new();
        match self {
            Application::Dns(message) => {
                let header = message.header;
                push_field(&mut fields, "protocol", String::from_str("dns"));
                push_field(&mut fields, "id", decimal_text(header.id as u64));
                push_field(&mut fields, "response", truth_text(header.flags >= 0x8000));
                push_field(&mut fields, "questions", decimal_text(header.question_count as u64));
                push_field(&mut fields, "answers", decimal_text(header.answer_count as u64));
                push_field(&mut fields, "authorities", decimal_text(header.authority_count as u64));
                push_field(
                    &mut fields,
                    "additionals",
                    decimal_text(header.additional_count as u64),
                );
                let ghost fixed = fields_view(fields@);
                let mut i: usize = 0;
                while i < message.questions.len()
                    invariant
                        i <= message.questions@.len(),
                        fields_view(fields@) == fixed + question_fields(message@).subrange(
                            0,
                            i as int,
                        ),
                    decreases message.questions@.len() - i,
                {
                    let name = if i == 0 {
                        String::from_str("question")
                    } else {
                        let mut numbered = String::from_str("question ");
                        push_decimal(&mut numbered, i as u64 + 1);
                        numbered
                    };
                    push_field(&mut fields, name.as_str(), question_name(&message.questions[i]));
                    i = i + 1;
                }
            },
            Application::Other(bytes) => {
                push_field(&mut fields, "protocol", String::from_str("data"));
                push_field(&mut fields, "length", decimal_text(bytes.len() as u64));
            },
        }
        fields
    }
}

/// A payload is classified as DNS exactly where it is a DNS message; every
/// other payload is kept as it is, byte for byte.
pub proof fn classification_keeps_payload(payload: Seq<u8>)
    ensures
        application_of(payload) is Dns <==> message_of(payload) is Ok,
        application_of(payload) matches ApplicationView::Dns(message) ==> message_of(payload)
            == Ok::<DnsMessageView, crate::dns::DnsError>(message),
        application_of(payload) matches ApplicationView::Other(bytes) ==> bytes == payload,
        payload.len() < 12 ==> application_of(payload) == ApplicationView::Other(payload),
{
}

} // verus!
