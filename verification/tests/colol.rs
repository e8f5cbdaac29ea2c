use colol::colors::Style;
use colol::emit::Emitter;

/// Write plain text to standard output between styling calls, with no
/// trailing newline.
fn write_plain(text: &[u8]) {
    std::io::Write::write_all(&mut std::io::stdout(), text).ok();
}

#[test]
fn is_enabled() {
    assert_eq!(true, Emitter::new().is_enabled());
}

#[test]
fn basic() {
    colol::activate(Style::Blue);
    println!("Test basic!");
    colol::activate(Style::Reset);
}

#[test]
fn closing_colors() {
    colol::activate(Style::Blue);
    println!("Test closing colors!");
    colol::deactivate(Style::Blue);
}

#[test]
fn multiple_colors() {
    colol::activate(Style::Blue);
    write_plain(b"Test ");
    colol::deactivate(Style::Blue);
    colol::activate(Style::Red);
    colol::activate(Style::Underline);
    write_plain(b"multiple");
    colol::deactivate(Style::Underline);
    println!(" colors!");
    colol::deactivate(Style::Red);
}

#[test]
fn logo() {
    colol::activate(Style::Bold);
    colol::activate(Style::BgRed);
    colol::activate(Style::White);
    write_plain(b"co");
    colol::deactivate(Style::BgRed);
    colol::activate(Style::BgBlue);
    println!("lol");
    colol::deactivate(Style::BgBlue);
    colol::deactivate(Style::Bold);
}

#[test]
fn every_color() {
    colol::activate(Style::Bold);
    println!("bold");
    colol::deactivate(Style::Bold);

    colol::activate(Style::Dim);
    println!("dim");
    colol::deactivate(Style::Dim);

    colol::activate(Style::Italic);
    println!("italic");
    colol::deactivate(Style::Italic);

    colol::activate(Style::Underline);
    println!("underline");
    colol::deactivate(Style::Underline);

    colol::activate(Style::Inverse);
    println!("inverse");
    colol::deactivate(Style::Inverse);

    colol::activate(Style::Hidden);
    println!("hidden");
    colol::deactivate(Style::Hidden);

    colol::activate(Style::Strikethrough);
    println!("strikethrough");
    colol::deactivate(Style::Strikethrough);

    colol::activate(Style::Black);
    println!("black");
    colol::deactivate(Style::Black);

    colol::activate(Style::Red);
    println!("red");
    colol::deactivate(Style::Red);

    colol::activate(Style::Green);
    println!("green");
    colol::deactivate(Style::Green);

    colol::activate(Style::Yellow);
    println!("yellow");
    colol::deactivate(Style::Yellow);

    colol::activate(Style::Blue);
    println!("blue");
    colol::deactivate(Style::Blue);

    colol::activate(Style::Magenta);
    println!("magenta");
    colol::deactivate(Style::Magenta);

    colol::activate(Style::Cyan);
    println!("cyan");
    colol::deactivate(Style::Cyan);

    colol::activate(Style::White);
    println!("white");
    colol::deactivate(Style::White);

    colol::activate(Style::Gray);
    println!("gray");
    colol::deactivate(Style::Gray);

    colol::activate(Style::Grey);
    println!("grey");
    colol::deactivate(Style::Grey);

    colol::activate(Style::LtBlack);
    println!("lt_black");
    colol::deactivate(Style::LtBlack);

    colol::activate(Style::LtRed);
    println!("lt_red");
    colol::deactivate(Style::LtRed);

    colol::activate(Style::LtGreen);
    println!("lt_green");
    colol::deactivate(Style::LtGreen);

    colol::activate(Style::LtYellow);
    println!("lt_yellow");
    colol::deactivate(Style::LtYellow);

    colol::activate(Style::LtBlue);
    println!("lt_blue");
    colol::deactivate(Style::LtBlue);

    colol::activate(Style::LtMagenta);
    println!("lt_magenta");
    colol::deactivate(Style::LtMagenta);

    colol::activate(Style::LtCyan);
    println!("lt_cyan");
    colol::deactivate(Style::LtCyan);

    colol::activate(Style::LtWhite);
    println!("lt_white");
    colol::deactivate(Style::LtWhite);

    colol::activate(Style::BgBlack);
    println!("bg_black");
    colol::deactivate(Style::BgBlack);

    colol::activate(Style::BgRed);
    println!("bg_red");
    colol::deactivate(Style::BgRed);

    colol::activate(Style::BgGreen);
    println!("bg_green");
    colol::deactivate(Style::BgGreen);

    colol::activate(Style::BgYellow);
    println!("bg_yellow");
    colol::deactivate(Style::BgYellow);

    colol::activate(Style::BgBlue);
    println!("bg_blue");
    colol::deactivate(Style::BgBlue);

    colol::activate(Style::BgMagenta);
    println!("bg_magenta");
    colol::deactivate(Style::BgMagenta);

    colol::activate(Style::BgCyan);
    println!("bg_cyan");
    colol::deactivate(Style::BgCyan);

    colol::activate(Style::BgWhite);
    println!("bg_white");
    colol::deactivate(Style::BgWhite);

    colol::activate(Style::BgLtBlack);
    println!("bg_lt_black");
    colol::deactivate(Style::BgLtBlack);

    colol::activate(Style::BgLtRed);
    println!("bg_lt_red");
    colol::deactivate(Style::BgLtRed);

    colol::activate(Style::BgLtGreen);
    println!("bg_lt_green");
    colol::deactivate(Style::BgLtGreen);

    colol::activate(Style::BgLtYellow);
    println!("bg_lt_yellow");
    colol::deactivate(Style::BgLtYellow);

    colol::activate(Style::BgLtBlue);
    println!("bg_lt_blue");
    colol::deactivate(Style::BgLtBlue);

    colol::activate(Style::BgLtMagenta);
    println!("bg_lt_magenta");
    colol::deactivate(Style::BgLtMagenta);

    colol::activate(Style::BgLtCyan);
    println!("bg_lt_cyan");
    colol::deactivate(Style::BgLtCyan);

    colol::activate(Style::BgLtWhite);
    println!("bg_lt_white");
    colol::deactivate(Style::BgLtWhite);
}
