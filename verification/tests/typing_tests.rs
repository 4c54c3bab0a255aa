use racoon_typper::domain::CharStatus;
use racoon_typper::typing::{TextBuffer, TypingResult};

#[test]
fn correct_character() {
    let mut buf = TextBuffer::new("hello");
    let result = buf.process_print('h', 100);
    assert_eq!(result, TypingResult::Correct);
    assert_eq!(buf.current_position, 1);
    assert_eq!(buf.char_status_at(0), Some(CharStatus::Correct));
    assert_eq!(buf.typed_at(0), Some('h'));
}

#[test]
fn incorrect_character() {
    let mut buf = TextBuffer::new("hello");
    let result = buf.process_print('x', 100);
    assert_eq!(result, TypingResult::Incorrect);
    assert_eq!(buf.current_position, 0); // не двигается
    assert_eq!(buf.char_status_at(0), Some(CharStatus::Incorrect));
    assert_eq!(buf.typed_at(0), Some('x'));
}

#[test]
fn backspace_on_correct() {
    let mut buf = TextBuffer::new("hello");
    buf.process_print('h', 100);
    assert_eq!(buf.current_position, 1);

    let result = buf.process_backspace();
    assert_eq!(result, TypingResult::UndoneCorrect);
    assert_eq!(buf.current_position, 0);
    assert_eq!(buf.char_status_at(0), Some(CharStatus::Backspaced));
}

#[test]
fn backspace_on_incorrect() {
    let mut buf = TextBuffer::new("hello");
    buf.process_print('x', 100); // incorrect
    assert_eq!(buf.current_position, 0);

    // Backspace на incorrect — теперь снимает incorrect пометку (Pending)
    let result = buf.process_backspace();
    assert_eq!(result, TypingResult::UndoneIncorrect);
    assert_eq!(buf.current_position, 0); // caret не двигается
}

#[test]
fn backspace_in_beginning_is_noop() {
    let mut buf = TextBuffer::new("hello");
    let result = buf.process_backspace();
    assert_eq!(result, TypingResult::Noop);
    assert_eq!(buf.current_position, 0);
}

#[test]
fn first_typed_preserved_after_backspace() {
    let mut buf = TextBuffer::new("hello");
    buf.process_print('x', 100); // incorrect, first_typed = 'x'

    // Backspace на incorrect снимает пометку, но first_typed сохраняется
    buf.process_backspace(); // UndoneIncorrect

    // Проверяем что first_typed сохранён
    let tc = &buf.typed_chars[0];
    assert_eq!(tc.first_typed, Some('x'));
    assert!(!tc.first_correct);

    // Теперь вводим правильно
    buf.process_print('h', 200); // correct
    assert_eq!(buf.current_position, 1);
}

#[test]
fn text_completion() {
    let mut buf = TextBuffer::new("hi");
    buf.process_print('h', 100);
    buf.process_print('i', 200);
    assert!(buf.is_complete);
    assert_eq!(buf.current_position, 2);

    // Ввод после завершения
    let result = buf.process_print('x', 300);
    assert_eq!(result, TypingResult::TestEnded);
}

#[test]
fn timer_starts_on_first_key() {
    let mut buf = TextBuffer::new("hello");
    assert!(buf.start_time.is_none());

    buf.process_print('h', 100);
    assert!(buf.start_time.is_some());
}

#[test]
fn full_sentence_typing() {
    let text = "The quick brown fox jumps over the lazy dog";
    let mut buf = TextBuffer::new(text);

    for ch in text.chars() {
        let result = buf.process_print(ch, 0);
        assert_eq!(result, TypingResult::Correct, "Failed on char: '{}'", ch);
    }

    assert!(buf.is_complete);
    assert_eq!(buf.correct_chars(), text.len());
    assert_eq!(buf.incorrect_chars(), 0);
}

#[test]
fn backspace_after_advance() {
    let mut buf = TextBuffer::new("abc");
    buf.process_print('a', 100);
    buf.process_print('b', 200);
    assert_eq!(buf.current_position, 2);

    // Backspace на 'b' (correct)
    let result = buf.process_backspace();
    assert_eq!(result, TypingResult::UndoneCorrect);
    assert_eq!(buf.current_position, 1);

    // Вводим 'b' снова
    let result = buf.process_print('b', 300);
    assert_eq!(result, TypingResult::Correct);
    assert_eq!(buf.current_position, 2);
}

#[test]
fn backspace_then_retype_preserves_first_typed() {
    let mut buf = TextBuffer::new("abc");
    buf.process_print('x', 100); // incorrect at pos 0
    buf.process_print('a', 200); // still at pos 0, now correct

    // first_typed для pos 0 должен быть 'x' (первая попытка)
    assert_eq!(buf.typed_chars[0].first_typed, Some('x'));
    assert!(!buf.typed_chars[0].first_correct);

    // Но статус сейчас Correct
    assert_eq!(buf.char_status_at(0), Some(CharStatus::Correct));
}

#[test]
fn unicode_cyrillic_text() {
    let text = "привет мир";
    let mut buf = TextBuffer::new(text);

    for ch in text.chars() {
        let result = buf.process_print(ch, 0);
        assert_eq!(result, TypingResult::Correct, "Failed on char: '{}'", ch);
    }
    assert!(buf.is_complete);
    assert_eq!(buf.correct_chars(), 10); // 10 chars including space
}

#[test]
fn unicode_emoji_text() {
    let text = "hello 🦝 world";
    let mut buf = TextBuffer::new(text);

    // 'h','e','l','l','o',' ','🦝',' ','w','o','r','l','d'
    // 🦝 — один char в Rust (4 байта UTF-8)
    let chars: Vec<char> = text.chars().collect();
    assert_eq!(chars.len(), 13);

    for ch in text.chars() {
        let result = buf.process_print(ch, 0);
        assert_eq!(result, TypingResult::Correct, "Failed on char: '{}'", ch);
    }
    assert!(buf.is_complete);
}

#[test]
fn unicode_mixed_script() {
    let text = "hello мир 123";
    let mut buf = TextBuffer::new(text);

    for ch in text.chars() {
        buf.process_print(ch, 0);
    }
    assert!(buf.is_complete);
    assert_eq!(buf.correct_chars(), text.chars().count());
}

#[test]
fn utf8_multibyte_position_correct() {
    let text = "ёж";
    let mut buf = TextBuffer::new(text);
    // 'ё' — 2 байта в UTF-8, но 1 char в Rust
    buf.process_print('ё', 100);
    assert_eq!(buf.current_position, 1);
    buf.process_print('ж', 200);
    assert_eq!(buf.current_position, 2);
    assert!(buf.is_complete);
}

#[test]
fn wrong_backspace_correct_sequence() {
    let mut buf = TextBuffer::new("hello");

    // 1. Wrong: 'x' вместо 'h'
    let r = buf.process_print('x', 100);
    assert_eq!(r, TypingResult::Incorrect);
    assert_eq!(buf.current_position, 0);

    // first_typed = 'x', first_correct = false
    assert_eq!(buf.typed_chars[0].first_typed, Some('x'));
    assert!(!buf.typed_chars[0].first_correct);

    // 2. Backspace на incorrect — снимает incorrect (UndoneIncorrect)
    let r = buf.process_backspace();
    assert_eq!(r, TypingResult::UndoneIncorrect);
    assert_eq!(buf.current_position, 0);

    // 3. Correct: 'h'
    let r = buf.process_print('h', 200);
    assert_eq!(r, TypingResult::Correct);
    assert_eq!(buf.current_position, 1);

    // first_typed сохранён = 'x' (для heatmap)
    assert_eq!(buf.typed_chars[0].first_typed, Some('x'));
    assert!(!buf.typed_chars[0].first_correct);

    // Статус = Correct
    assert_eq!(buf.char_status_at(0), Some(CharStatus::Correct));
}

#[test]
fn wrong_backspace_correct_after_advance() {
    let mut buf = TextBuffer::new("abc");

    // Правильно: 'a'
    buf.process_print('a', 100);
    assert_eq!(buf.current_position, 1);

    // Неправильно: 'x' вместо 'b'
    buf.process_print('x', 200);
    assert_eq!(buf.current_position, 1); // не двигается

    // Backspace на incorrect — снимает incorrect (UndoneIncorrect)
    let r = buf.process_backspace();
    assert_eq!(r, TypingResult::UndoneIncorrect);
    assert_eq!(buf.current_position, 1);

    // Теперь вводим правильно: 'b'
    buf.process_print('b', 400);
    assert_eq!(buf.current_position, 2);
}

#[test]
fn long_text_1000_chars() {
    let text = "a ".repeat(500); // 1000 chars
    assert_eq!(text.len(), 1000);

    let mut buf = TextBuffer::new(&text);
    let chars: Vec<char> = text.chars().collect();
    assert_eq!(chars.len(), 1000);

    for ch in text.chars() {
        let r = buf.process_print(ch, 0);
        assert_eq!(r, TypingResult::Correct);
    }
    assert!(buf.is_complete);
    assert_eq!(buf.correct_chars(), 1000);
}

#[test]
fn long_text_with_errors_and_backspace() {
    // 500 символов с ошибками и исправлениями
    let text = "the quick brown fox ".repeat(25); // 500 chars
    let mut buf = TextBuffer::new(&text);

    let chars: Vec<char> = text.chars().collect();
    for (i, ch) in chars.iter().enumerate() {
        if i % 50 == 10 {
            // Ошибка каждые 50 символов
            buf.process_print('X', i as u64);
            // Исправляем
            buf.process_backspace();
        }
        buf.process_print(*ch, i as u64 + 1000);
    }
    assert!(buf.is_complete);
    assert_eq!(buf.correct_chars(), text.chars().count());
}
