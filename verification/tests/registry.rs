use boteg::{ActiveCommand, Bot, Message, RegistryError, ResponseMessage, Table};

type Handler = fn(Message) -> Option<ResponseMessage>;
type Callback = fn(Message, Option<u64>) -> Option<ResponseMessage>;

fn silent(_message: Message) -> Option<ResponseMessage> {
    None
}

fn silent_callback(_message: Message, _message_id: Option<u64>) -> Option<ResponseMessage> {
    None
}

#[test]
fn same_name_twice_in_one_table_fails() {
    let mut bot: Bot<Handler, Callback> = Bot::new();
    assert_eq!(bot.add_command_dynamic("test".to_string(), silent), Ok(()));
    assert_eq!(
        bot.add_command_dynamic("test".to_string(), silent),
        Err(RegistryError::DuplicateName)
    );
    assert_eq!(bot.add_command_inline_dynamic("ping".to_string(), silent), Ok(()));
    assert_eq!(
        bot.add_command_inline_dynamic("ping".to_string(), silent),
        Err(RegistryError::DuplicateName)
    );
    assert_eq!(bot.add_callback_dynamic("more".to_string(), silent_callback), Ok(()));
    assert_eq!(
        bot.add_callback_dynamic("more".to_string(), silent_callback),
        Err(RegistryError::DuplicateName)
    );
}

#[test]
fn same_name_in_another_table_succeeds() {
    let mut bot: Bot<Handler, Callback> = Bot::new();
    assert_eq!(bot.add_command_dynamic("test".to_string(), silent), Ok(()));
    assert_eq!(bot.add_command_inline_dynamic("test".to_string(), silent), Ok(()));
    assert_eq!(bot.add_callback_dynamic("test".to_string(), silent_callback), Ok(()));
    assert_eq!(
        bot.add_callback_dynamic("test".to_string(), silent_callback),
        Err(RegistryError::DuplicateName)
    );
}

#[test]
fn static_and_dynamic_names_share_a_table() {
    let mut bot: Bot<Handler, Callback> = Bot::new();
    bot.add_command_static("test", silent);
    bot.add_command_inline_static("test", silent);
    bot.add_callback_static("test", silent_callback);
    assert_eq!(
        bot.add_command_dynamic("test".to_string(), silent),
        Err(RegistryError::DuplicateName)
    );
    assert_eq!(
        bot.add_command_inline_dynamic("test".to_string(), silent),
        Err(RegistryError::DuplicateName)
    );
    assert_eq!(
        bot.add_callback_dynamic("test".to_string(), silent_callback),
        Err(RegistryError::DuplicateName)
    );
    assert_eq!(bot.add_command_dynamic("Test".to_string(), silent), Ok(()));
}

#[test]
fn refused_registration_changes_nothing() {
    let mut bot: Bot<u8, u8> = Bot::new();
    assert_eq!(bot.add_command_dynamic("test".to_string(), 1), Ok(()));
    assert_eq!(bot.add_command_dynamic("test".to_string(), 2), Err(RegistryError::DuplicateName));
    assert_eq!(bot.command_handler(0), Some(&1));
    assert_eq!(bot.command_handler(1), None);
}

#[test]
fn table_keeps_the_order_of_registration() {
    let mut table: Table<u8> = Table::new();
    assert_eq!(table.len(), 0);
    assert_eq!(table.insert("b".to_string(), 20), Ok(()));
    assert_eq!(table.insert("a".to_string(), 10), Ok(()));
    assert_eq!(table.insert("c".to_string(), 30), Ok(()));
    assert_eq!(table.insert("a".to_string(), 40), Err(RegistryError::DuplicateName));
    assert_eq!(table.len(), 3);
    assert_eq!(table.find(&"b".to_string()), Some(0));
    assert_eq!(table.find(&"a".to_string()), Some(1));
    assert_eq!(table.find(&"c".to_string()), Some(2));
    assert_eq!(table.find(&"d".to_string()), None);
    assert_eq!(table.name_at(1), Some(&"a".to_string()));
    assert_eq!(table.name_at(3), None);
    assert_eq!(table.handler_at(1), Some(&10));
    assert_eq!(table.handler_at(2), Some(&30));
    assert_eq!(table.handler_at(3), None);
}

#[test]
fn active_command_starts_at_the_first_and_keeps_what_is_set() {
    let active = ActiveCommand::new();
    assert_eq!(active.get(), 0);
    active.set(3);
    assert_eq!(active.get(), 3);
    active.set(0);
    assert_eq!(active.get(), 0);
}
