use trench::commands::{command_specs, find_command, parse_slash_command, CommandId, SlashCommandInvocation};

#[test]
fn bare_commands_parse() {
  assert_eq!(parse_slash_command("/clear"), SlashCommandInvocation::ClearChat);
  assert_eq!(parse_slash_command("  /digest  "), SlashCommandInvocation::Digest);
  assert_eq!(parse_slash_command("/clear discoveries"), SlashCommandInvocation::ClearDiscoveries);
}

#[test]
fn longest_command_wins() {
  // "/clear history" must not be taken for "/clear".
  assert_eq!(parse_slash_command("/clear history"), SlashCommandInvocation::ClearHistory);
  assert_eq!(
    find_command("/clear history").map(|s| s.id),
    Some(CommandId::ClearHistory)
  );
}

#[test]
fn arguments_are_trimmed() {
  assert_eq!(
    parse_slash_command("/discover   diffusion models  "),
    SlashCommandInvocation::Discover { topic: "diffusion models".to_string() }
  );
  assert_eq!(
    parse_slash_command("/author Yann LeCun"),
    SlashCommandInvocation::Author { name: "Yann LeCun".to_string() }
  );
  assert_eq!(
    parse_slash_command("/export-library json"),
    SlashCommandInvocation::ExportLibrary { format: "json".to_string() }
  );
}

#[test]
fn add_and_add_feed_are_told_apart() {
  assert_eq!(
    parse_slash_command("/add cs.LG"),
    SlashCommandInvocation::AddArxivCategory { category: "cs.LG".to_string() }
  );
  assert_eq!(
    parse_slash_command("/add-feed https://example.com/rss"),
    SlashCommandInvocation::AddFeed { url: "https://example.com/rss".to_string() }
  );
}

#[test]
fn command_needs_space_before_arguments() {
  assert_eq!(
    parse_slash_command("/discoverx"),
    SlashCommandInvocation::Unknown { raw: "/discoverx".to_string() }
  );
  assert_eq!(
    parse_slash_command("  hello there "),
    SlashCommandInvocation::Unknown { raw: "hello there".to_string() }
  );
  assert!(find_command("/sot").is_none());
}

#[test]
fn command_table_has_every_command_once() {
  let specs = command_specs();
  assert_eq!(specs.len(), 16);
  for (i, a) in specs.iter().enumerate() {
    for b in specs.iter().skip(i + 1) {
      assert_ne!(a.command, b.command);
    }
  }
}
