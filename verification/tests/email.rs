use auth_ms::email::{render_eml, EmailMessage, EmailSender, FileSender, SmtpSender};

fn message(subject: &str) -> EmailMessage {
    EmailMessage::new("to@example.com".to_string(), "from@example.com".to_string(), subject.to_string(), "Hello".to_string())
}

#[test]
fn new_message_is_plain() {
    let m = message("Hi");
    assert_eq!(m.to, "to@example.com");
    assert_eq!(m.from, "from@example.com");
    assert_eq!(m.subject, "Hi");
    assert_eq!(m.text, "Hello");
    assert!(m.html.is_none());
    assert!(m.headers.is_empty());
}

#[test]
fn eml_text() {
    assert_eq!(render_eml(&message("Hi")), "From: from@example.com\nTo: to@example.com\nSubject: Hi\n\nHello\n");
}

#[test]
fn smtp_sender_keeps_what_it_sends() {
    let s = SmtpSender::new("noreply@localhost".to_string());
    assert!(s.sent_messages().is_empty());
    assert!(s.send(message("one")).is_ok());
    assert!(s.send(message("two")).is_ok());
    let sent = s.sent_messages();
    assert_eq!(sent.len(), 2);
    assert_eq!(sent[0].subject, "one");
    assert_eq!(sent[1].subject, "two");
}

#[test]
fn file_sender_defaults() {
    assert_eq!(FileSender::default(), FileSender { dir: "./tmp/emails".to_string() });
    assert_eq!(FileSender::new("/var/mail".to_string()).dir, "/var/mail");
    assert_eq!(FileSender::file_name(0x67e5504410b1426f9247bb680e5fe0c8), "67e55044-10b1-426f-9247-bb680e5fe0c8.eml");
}

#[test]
fn message_copy() {
    let mut m = message("x");
    m.html = Some("<p>x</p>".to_string());
    m.headers.insert("X-Tag".to_string(), "a".to_string());
    let c = m.duplicate();
    assert_eq!(c.html, m.html);
    assert_eq!(c.headers, m.headers);
    assert_eq!(c.subject, m.subject);
}

#[test]
fn smtp_sender_clones_share_one_log() {
    let s = SmtpSender::new("noreply@localhost".to_string());
    let s2 = s.clone();
    let a = EmailMessage::new("a@x.io".to_string(), "noreply@localhost".to_string(), "Hi".to_string(), "A".to_string());
    let b = EmailMessage::new("b@x.io".to_string(), "noreply@localhost".to_string(), "Yo".to_string(), "B".to_string());
    assert!(s.send(a).is_ok());
    assert!(s2.send(b).is_ok());
    for log in [s.sent_messages(), s2.sent_messages()] {
        assert_eq!(log.len(), 2);
        assert_eq!(log[0].to, "a@x.io");
        assert_eq!(log[1].to, "b@x.io");
    }
    let other = SmtpSender::new("noreply@localhost".to_string());
    assert!(other.sent_messages().is_empty());
}
